//! The system's global laws, stated and proved over the ledger's invariants.
//! Each holds of every well-formed ledger, and every operation keeps the
//! ledger well-formed, so they hold after any sequence of operations.

use vstd::prelude::*;
use crate::ledger::bid_entries_wf;
use crate::ledger::Ledger;
use crate::types::Auction;

verus! {

/// Index integrity: the global index counts exactly the live creatures, and
/// for every live creature the reverse mapping round-trips — it points at a
/// slot whose array value is that creature's id.
pub proof fn lemma_index_integrity(l: Ledger)
    requires
        l.wf(),
    ensures
        l.all_index@.len() == l.live().len(),
        forall|id: u64|
            #[trigger] l.live().contains(id) ==> l.all_index.positions().contains_key(id) && (
            l.all_index.positions()[id] as int) < l.all_index@.len() && l.all_index@[
                l.all_index.positions()[id] as int
            ] == id,
{
    broadcast use vstd::seq_lib::seq_to_set_is_finite;

    let g = l.all_index@;
    l.all_index.lemma_no_duplicates();
    assert forall|id: u64| g.to_set().contains(id) <==> l.live().contains(id) by {
        l.all_index.lemma_has_is_contains(id);
    }
    assert(g.to_set() =~= l.live());
    g.unique_seq_to_set();
}

/// Owner partition: the per-owner indices cover every live creature exactly
/// once — each live creature sits in its owner's index, an id never sits in
/// two owners' indices, and every indexed id is a live creature.
pub proof fn lemma_owner_partition(l: Ledger)
    requires
        l.wf(),
    ensures
        forall|id: u64|
            #[trigger] l.live().contains(id) ==> l.owned@.contains_key(l.owners@[id])
                && l.owned@[l.owners@[id]].has(id),
        forall|a1: u64, a2: u64, id: u64|
            l.owned@.contains_key(a1) && l.owned@.contains_key(a2) && #[trigger] l.owned@[a1].has(
                id,
            ) && #[trigger] l.owned@[a2].has(id) ==> a1 == a2,
        forall|a: u64, id: u64|
            l.owned@.contains_key(a) && #[trigger] l.owned@[a].has(id) ==> l.live().contains(id),
{
    assert forall|id: u64| #[trigger] l.live().contains(id) implies l.owned@.contains_key(
        l.owners@[id],
    ) && l.owned@[l.owners@[id]].has(id) by {
        assert(l.owners@.contains_key(id));
    }
}

/// The sum of the reserved amounts in a bid list.
pub open spec fn bids_total(entries: Seq<(u64, u64)>) -> int
    decreases entries.len(),
{
    if entries.len() == 0 {
        0
    } else {
        bids_total(entries.drop_last()) + entries.last().1
    }
}

/// The sum of the reserved amounts in a bid list that belong to bidders
/// other than the winner `w`: what settlement refunds.
pub open spec fn refunds_total(entries: Seq<(u64, u64)>, w: u64) -> int
    decreases entries.len(),
{
    if entries.len() == 0 {
        0
    } else {
        refunds_total(entries.drop_last(), w) + (if entries.last().0 == w {
            0
        } else {
            entries.last().1 as int
        })
    }
}

/// A list with no entry of the winner refunds everything it holds.
proof fn lemma_no_winner_entry(entries: Seq<(u64, u64)>, w: u64)
    requires
        forall|i: int| 0 <= i < entries.len() ==> (#[trigger] entries[i]).0 != w,
    ensures
        refunds_total(entries, w) == bids_total(entries),
    decreases entries.len(),
{
    if entries.len() > 0 {
        assert(entries[entries.len() - 1].0 != w);
        lemma_no_winner_entry(entries.drop_last(), w);
    }
}

/// Settlement conservation: for a well-formed bid list, the captured payment
/// — the winner's reserved amount, which equals the high bid — plus the sum
/// of all refunded amounts equals the sum of all outstanding reservations.
pub proof fn lemma_settlement_conservation(entries: Seq<(u64, u64)>, a: Auction)
    requires
        bid_entries_wf(entries, a),
    ensures
        a.high_bidder matches Some(w) && bids_total(entries) == a.high_bid as int
            + refunds_total(entries, w),
    decreases entries.len(),
{
    let w = a.high_bidder->Some_0;
    let last = entries.last();
    if last.0 == w {
        assert(entries.contains((w, a.high_bid)));
        let i = choose|i: int| 0 <= i < entries.len() && entries[i] == (w, a.high_bid);
        assert(last == (w, a.high_bid)) by {
            if i < entries.len() - 1 {
                assert(entries[i].0 == w && entries[entries.len() - 1].0 == w);
            }
        }
        assert forall|i: int| 0 <= i < entries.drop_last().len() implies (#[trigger] entries.drop_last()[i]).0 != w by {
            assert(entries[i].0 == entries.drop_last()[i].0);
            if entries[i].0 == w {
                assert(entries[entries.len() - 1].0 == w);
            }
        }
        lemma_no_winner_entry(entries.drop_last(), w);
    } else {
        assert(entries.contains((w, a.high_bid)));
        let i = choose|i: int| 0 <= i < entries.len() && entries[i] == (w, a.high_bid);
        assert(i < entries.len() - 1);
        assert(entries.drop_last()[i] == (w, a.high_bid));
        assert(entries.drop_last().contains((w, a.high_bid)));
        assert(bid_entries_wf(entries.drop_last(), a)) by {
            assert forall|j: int, k: int|
                0 <= j < k < entries.drop_last().len() implies (#[trigger] entries.drop_last()[j]).0
                != (#[trigger] entries.drop_last()[k]).0 by {
                assert(entries[j] == entries.drop_last()[j]);
                assert(entries[k] == entries.drop_last()[k]);
            }
            assert forall|j: int| 0 <= j < entries.drop_last().len() implies (#[trigger] entries.drop_last()[j]).1
                > 0 && entries.drop_last()[j].0 != a.mogwai_owner by {
                assert(entries[j] == entries.drop_last()[j]);
            }
        }
        lemma_settlement_conservation(entries.drop_last(), a);
    }
}

/// Settlement conservation, read off a well-formed ledger: for any live
/// auction with a real high bidder, the outstanding reservations of its bid
/// list split exactly into the payment the winner's reservation captures and
/// the refunds owed to everyone else.
pub proof fn lemma_ledger_settlement_conservation(l: Ledger, id: u64)
    requires
        l.wf(),
        l.bids@.contains_key(id),
    ensures
        l.auctions@[id].high_bidder matches Some(w) && bids_total(l.bids@[id]@)
            == l.auctions@[id].high_bid as int + refunds_total(l.bids@[id]@, w),
{
    lemma_settlement_conservation(l.bids@[id]@, l.auctions@[id]);
}

} // verus!
