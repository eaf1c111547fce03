//! Plain-value models of the chain data the monitor reads: the header a
//! subscription delivers, the body a fetch returns, and the transactions
//! inside it, together with the recipient test that decides what is
//! reported.

use vstd::prelude::*;

verus! {

/// What the subscription delivers for a newly mined block. The number can
/// be absent (a header seen mid-reorg); such a header is skipped.
pub struct BlockHeader {
    pub number: Option<u64>,
}

/// A transfer or call record as read from a fetched block. A transaction
/// that creates a contract has no recipient.
pub struct Transaction {
    pub hash: String,
    pub from: String,
    pub to: Option<String>,
    pub input: String,
    pub value: u128,
}

/// A fetched block: its transactions, in the block's own order.
pub struct BlockBody {
    pub transactions: Vec<Transaction>,
}

/// The lowercase form of a sequence of characters, as Unicode case
/// mapping gives it: a function of the characters alone.
pub uninterp spec fn lower_of(s: Seq<char>) -> Seq<char>;

/// Relies on str::to_lowercase: returns the lowercase form of the string,
/// which depends on its characters alone.
#[verifier::external_body]
fn lowercase(s: &str) -> (r: String)
    ensures
        r@ == lower_of(s@),
{
    s.to_lowercase()
}

/// A transaction is watched when its recipient, compared
/// case-insensitively, equals the watch address; one without a recipient
/// never matches.
pub open spec fn spec_tx_matches(tx: Transaction, watch: Seq<char>) -> bool {
    match tx.to {
        Some(t) => lower_of(t@) == lower_of(watch),
        None => false,
    }
}

/// A transaction without a recipient (a contract creation) never matches
/// any watch address: it is skipped, never a fault.
pub proof fn lemma_no_recipient_never_matches(tx: Transaction, watch: Seq<char>)
    requires
        tx.to is None,
    ensures
        !spec_tx_matches(tx, watch),
{
}

/// Decides whether one transaction's recipient is the watch address.
pub fn tx_matches(tx: &Transaction, watch: &str) -> (r: bool)
    ensures
        r == spec_tx_matches(*tx, watch@),
{
    match &tx.to {
        Some(t) => {
            let lt = lowercase(t.as_str());
            let lw = lowercase(watch);
            lt == lw
        },
        None => false,
    }
}

} // verus!
