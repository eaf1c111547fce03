//! The block-processing pipeline: which fetch a delivered header gives
//! rise to, what one delivery makes the monitor print, and what a whole
//! session of deliveries prints, with the properties that hold of them.
//!
//! The surrounding process runs the loop: it pulls headers from the
//! subscription, issues the one fetch this module plans for each, and
//! prints the lines this module renders. Because every dispatched block
//! runs as its own task, lines of different blocks may interleave in
//! either order; within one block the order stated here is kept.

use vstd::prelude::*;
use vstd::string::StringExecFns;
use crate::chain::{BlockBody, BlockHeader};
use crate::decimal::{decimal_string, spec_decimal};
use crate::report::{block_report_lines, spec_report_lines};

verus! {

/// One delivered header together with what the fetch it caused returned:
/// `None` when the fetch failed, or when no fetch was issued because the
/// header carried no number.
pub struct Delivery {
    pub header: BlockHeader,
    pub fetched: Option<BlockBody>,
}

/// The fetch requests one header gives rise to: one, with the header's
/// own number, or none at all.
pub open spec fn spec_fetch_requests(h: BlockHeader) -> Seq<u64> {
    match h.number {
        Some(n) => seq![n],
        None => Seq::empty(),
    }
}

/// Plans the fetch for one delivered header: the header's block number,
/// or nothing when the header carries none (that block is skipped).
pub fn header_fetch_request(h: &BlockHeader) -> (r: Option<u64>)
    ensures
        r == h.number,
{
    match h.number {
        Some(n) => Some(n),
        None => None,
    }
}

/// The announcement printed when a block's header arrives.
pub fn block_announcement(n: u64) -> (r: String)
    ensures
        r@ == "Block: "@ + spec_decimal(n as nat),
{
    String::from_str("Block: ").concat(decimal_string(n as u128).as_str())
}

/// Everything one delivery makes the monitor print: the announcement of
/// the block, then the records of its matching transactions; nothing at
/// all for a header without a number, and only the announcement when the
/// fetch failed (such a block is silently dropped).
pub open spec fn spec_delivery_lines(d: Delivery, watch: Seq<char>) -> Seq<Seq<char>> {
    match d.header.number {
        Some(n) => seq!["Block: "@ + spec_decimal(n as nat)] + (match d.fetched {
            Some(b) => spec_report_lines(b.transactions@, watch),
            None => Seq::<Seq<char>>::empty(),
        }),
        None => Seq::empty(),
    }
}

/// Processes one delivered block: renders every line the delivery makes
/// the monitor print, in order.
pub fn process_block(d: &Delivery, watch: &str) -> (r: Vec<String>)
    ensures
        r.deep_view() == spec_delivery_lines(*d, watch@),
{
    match header_fetch_request(&d.header) {
        Some(n) => {
            let mut r: Vec<String> = Vec::new();
            r.push(block_announcement(n));
            if let Some(b) = &d.fetched {
                let mut rep = block_report_lines(b, watch);
                r.append(&mut rep);
            }
            proof {
                assert(r.deep_view() =~= spec_delivery_lines(*d, watch@));
            }
            r
        },
        None => {
            let r: Vec<String> = Vec::new();
            proof {
                assert(r.deep_view() =~= spec_delivery_lines(*d, watch@));
            }
            r
        },
    }
}

/// The fetch requests a session of deliveries issues, in arrival order.
pub open spec fn spec_session_requests(ds: Seq<Delivery>) -> Seq<u64>
    decreases ds.len(),
{
    if ds.len() == 0 {
        Seq::empty()
    } else {
        spec_fetch_requests(ds.first().header) + spec_session_requests(ds.drop_first())
    }
}

/// Everything a session of deliveries makes the monitor print, delivery
/// by delivery in arrival order.
pub open spec fn spec_session_lines(ds: Seq<Delivery>, watch: Seq<char>) -> Seq<Seq<char>>
    decreases ds.len(),
{
    if ds.len() == 0 {
        Seq::empty()
    } else {
        spec_delivery_lines(ds.first(), watch) + spec_session_lines(ds.drop_first(), watch)
    }
}

/// Every header that carries a block number gives rise to exactly one
/// fetch request, and that request carries the header's own number; a
/// header without a number gives rise to none.
pub proof fn lemma_one_fetch_per_header(h: BlockHeader)
    ensures
        h.number is Some ==> spec_fetch_requests(h).len() == 1 && spec_fetch_requests(h)[0]
            == h.number->0,
        h.number is None ==> spec_fetch_requests(h).len() == 0,
{
}

/// Adding one delivery to a session adds exactly the requests of its own
/// header, after those already issued: across a whole session, one fetch
/// per numbered header.
pub proof fn lemma_session_requests_per_delivery(ds: Seq<Delivery>, d: Delivery)
    ensures
        spec_session_requests(ds.push(d)) == spec_session_requests(ds) + spec_fetch_requests(
            d.header,
        ),
    decreases ds.len(),
{
    if ds.len() == 0 {
        assert(ds.push(d).first() == d);
        assert(ds.push(d).drop_first() =~= Seq::<Delivery>::empty());
        assert(spec_session_requests(ds.push(d).drop_first()) =~= Seq::<u64>::empty());
        assert(spec_session_requests(ds) =~= Seq::<u64>::empty());
        assert(spec_session_requests(ds.push(d)) =~= spec_session_requests(ds)
            + spec_fetch_requests(d.header));
    } else {
        assert(ds.push(d).first() == ds.first());
        assert(ds.push(d).drop_first() =~= ds.drop_first().push(d));
        lemma_session_requests_per_delivery(ds.drop_first(), d);
        assert(spec_session_requests(ds.push(d)) == spec_fetch_requests(ds.first().header)
            + spec_session_requests(ds.drop_first().push(d)));
        assert(spec_session_requests(ds.push(d)) =~= spec_session_requests(ds)
            + spec_fetch_requests(d.header));
    }
}

/// Delivering the same header twice produces its report twice: nothing
/// deduplicates repeated deliveries.
pub proof fn lemma_duplicate_delivery(d: Delivery, watch: Seq<char>)
    ensures
        spec_session_lines(seq![d, d], watch) == spec_delivery_lines(d, watch)
            + spec_delivery_lines(d, watch),
{
    let s = seq![d, d];
    assert(s.first() == d);
    assert(s.drop_first() =~= seq![d]);
    assert(seq![d].first() == d);
    assert(seq![d].drop_first() =~= Seq::<Delivery>::empty());
    assert(spec_session_lines(Seq::<Delivery>::empty(), watch) =~= Seq::<Seq<char>>::empty());
    assert(spec_session_lines(seq![d], watch) =~= spec_delivery_lines(d, watch));
    assert(spec_session_lines(s, watch) == spec_delivery_lines(s.first(), watch)
        + spec_session_lines(s.drop_first(), watch));
    assert(spec_session_lines(s, watch) =~= spec_delivery_lines(d, watch) + spec_delivery_lines(
        d,
        watch,
    ));
}

} // verus!
