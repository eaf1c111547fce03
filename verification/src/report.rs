//! The printed output of the monitor: the fixed-format record of one
//! matching transaction, and the report of a whole fetched block.

use vstd::prelude::*;
use vstd::string::StringExecFns;
use crate::chain::{BlockBody, Transaction, spec_tx_matches};
use crate::decimal::{decimal_string, spec_decimal};

verus! {

/// The fixed-format record of one matching transaction: seven lines,
/// delimited by separator lines.
pub open spec fn spec_record_lines(tx: Transaction) -> Seq<Seq<char>>
    recommends
        tx.to is Some,
{
    seq![
        "------------------"@,
        "Transaction Hash: "@ + tx.hash@,
        "From: "@ + tx.from@,
        "To: "@ + (match tx.to {
            Some(t) => t@,
            None => Seq::<char>::empty(),
        }),
        "Tx "@ + tx.input@,
        "Value: "@ + spec_decimal(tx.value as nat),
        "------------------"@,
    ]
}

/// Renders the record of one matching transaction. Only a transaction
/// with a recipient is ever reported, so one is required here.
pub fn txn_record_lines(tx: &Transaction) -> (r: Vec<String>)
    requires
        tx.to is Some,
    ensures
        r.deep_view() == spec_record_lines(*tx),
{
    let mut r: Vec<String> = Vec::new();
    r.push(String::from_str("------------------"));
    r.push(String::from_str("Transaction Hash: ").concat(tx.hash.as_str()));
    r.push(String::from_str("From: ").concat(tx.from.as_str()));
    if let Some(t) = &tx.to {
        r.push(String::from_str("To: ").concat(t.as_str()));
    }
    r.push(String::from_str("Tx ").concat(tx.input.as_str()));
    r.push(String::from_str("Value: ").concat(decimal_string(tx.value).as_str()));
    r.push(String::from_str("------------------"));
    proof {
        assert(r.deep_view() =~= spec_record_lines(*tx));
    }
    r
}

/// The lines reported for the transactions of one fetched block: the
/// record of every transaction whose recipient matches the watch address,
/// in the block's own transaction order.
pub open spec fn spec_report_lines(txs: Seq<Transaction>, watch: Seq<char>) -> Seq<Seq<char>>
    decreases txs.len(),
{
    if txs.len() == 0 {
        Seq::empty()
    } else {
        spec_report_lines(txs.drop_last(), watch) + (if spec_tx_matches(txs.last(), watch) {
            spec_record_lines(txs.last())
        } else {
            Seq::empty()
        })
    }
}

/// Scanning one more transaction appends exactly that transaction's
/// record when it matches the watch address, and nothing otherwise: a
/// transaction is reported if and only if it matches, and the records
/// keep the block's own transaction order.
pub proof fn lemma_report_per_transaction(
    txs: Seq<Transaction>,
    tx: Transaction,
    watch: Seq<char>,
)
    ensures
        spec_report_lines(txs.push(tx), watch) == spec_report_lines(txs, watch) + (
        if spec_tx_matches(tx, watch) {
            spec_record_lines(tx)
        } else {
            Seq::<Seq<char>>::empty()
        }),
{
    assert(txs.push(tx).drop_last() =~= txs);
    assert(txs.push(tx).last() == tx);
    assert(spec_report_lines(txs.push(tx), watch) =~= spec_report_lines(txs, watch) + (
    if spec_tx_matches(tx, watch) {
        spec_record_lines(tx)
    } else {
        Seq::<Seq<char>>::empty()
    }));
}

/// The transactions of a block whose recipient matches the watch
/// address, in the block's own order.
pub open spec fn spec_matching(txs: Seq<Transaction>, watch: Seq<char>) -> Seq<Transaction> {
    txs.filter(|tx: Transaction| spec_tx_matches(tx, watch))
}

/// The records of a sequence of transactions, concatenated in order.
pub open spec fn spec_records(txs: Seq<Transaction>) -> Seq<Seq<char>> {
    txs.flat_map(|tx: Transaction| spec_record_lines(tx))
}

/// The block report is exactly the records of the matching transactions,
/// concatenated in the block's own order: a transaction is reported if
/// and only if its recipient matches the watch address, and the records
/// keep the block's transaction order.
pub proof fn lemma_report_is_matching_records(txs: Seq<Transaction>, watch: Seq<char>)
    ensures
        spec_report_lines(txs, watch) == spec_records(spec_matching(txs, watch)),
        forall|i: int|
            0 <= i < txs.len() && spec_tx_matches(txs[i], watch) ==> #[trigger] spec_matching(
                txs,
                watch,
            ).contains(txs[i]),
        forall|i: int|
            0 <= i < spec_matching(txs, watch).len() ==> spec_tx_matches(
                #[trigger] spec_matching(txs, watch)[i],
                watch,
            ),
    decreases txs.len(),
{
    reveal(Seq::filter);
    txs.filter_lemma(|tx: Transaction| spec_tx_matches(tx, watch));
    if txs.len() == 0 {
        assert(spec_matching(txs, watch) =~= Seq::<Transaction>::empty());
        assert(spec_records(spec_matching(txs, watch)) =~= Seq::<Seq<char>>::empty());
    } else {
        let dl = txs.drop_last();
        lemma_report_is_matching_records(dl, watch);
        if spec_tx_matches(txs.last(), watch) {
            assert(spec_matching(txs, watch) == spec_matching(dl, watch).push(txs.last()));
            spec_matching(dl, watch).lemma_flat_map_push(
                |tx: Transaction| spec_record_lines(tx),
                txs.last(),
            );
            assert(spec_report_lines(txs, watch) =~= spec_records(spec_matching(txs, watch)));
        } else {
            assert(spec_matching(txs, watch) == spec_matching(dl, watch));
            assert(spec_report_lines(txs, watch) =~= spec_records(spec_matching(txs, watch)));
        }
    }
}

/// Scans one fetched block and renders the records of the matching
/// transactions, in the block's order.
pub fn block_report_lines(body: &BlockBody, watch: &str) -> (r: Vec<String>)
    ensures
        r.deep_view() == spec_report_lines(body.transactions@, watch@),
{
    let txs = &body.transactions;
    let mut r: Vec<String> = Vec::new();
    let mut i: usize = 0;
    while i < txs.len()
        invariant
            i <= txs@.len(),
            r.deep_view() == spec_report_lines(txs@.take(i as int), watch@),
        decreases txs@.len() - i,
    {
        let tx = &txs[i];
        let ghost prefix = txs@.take(i as int);
        if crate::chain::tx_matches(tx, watch) {
            let mut rec = txn_record_lines(tx);
            r.append(&mut rec);
        }
        proof {
            assert(txs@.take(i + 1 as int).drop_last() =~= prefix);
            assert(txs@.take(i + 1 as int).last() == txs@[i as int]);
            assert(r.deep_view() =~= spec_report_lines(txs@.take(i + 1 as int), watch@));
        }
        i = i + 1;
    }
    proof {
        assert(txs@.take(txs@.len() as int) =~= txs@);
    }
    r
}

} // verus!
