//! The block clock driver, invoked once per new block height by the host's
//! lifecycle.  It reads the expiry bucket of the new block, settles each
//! auction therein up to the per-block processing budget, voids the rest,
//! and discards the bucket; it also resets the block's auction-creation
//! budget.  The bucket is walked in insertion order, so the processing order
//! is deterministic given the same state.

use vstd::prelude::*;
use crate::ledger::Ledger;
use crate::types::MogwaiStruct;
use crate::types::MAX_AUCTIONS_PER_BLOCK;

verus! {

/// The creature ids of the auctions scheduled to expire at block `h`, in
/// insertion order.
pub open spec fn expiring(l: Ledger, h: u64) -> Seq<u64> {
    if l.buckets@.contains_key(h) {
        l.buckets@[h]@
    } else {
        Seq::<u64>::empty()
    }
}

/// Membership in a prefix one longer: the old prefix's members plus the one
/// id at the boundary.
proof fn lemma_take_step(s: Seq<u64>, i: int)
    requires
        0 <= i < s.len(),
    ensures
        forall|x: u64|
            #[trigger] s.take(i + 1).contains(x) <==> (s.take(i).contains(x) || x == s[i]),
{
    assert(s.take(i + 1) =~= s.take(i).push(s[i]));
    assert forall|x: u64| #[trigger] s.take(i + 1).contains(x) implies (s.take(i).contains(x)
        || x == s[i]) by {
        let k = choose|k: int| 0 <= k < i + 1 && #[trigger] s.take(i + 1)[k] == x;
        if k < i {
            assert(s.take(i)[k] == x);
        }
    }
    assert forall|x: u64| s.take(i).contains(x) || x == s[i] implies #[trigger] s.take(
        i + 1,
    ).contains(x) by {
        if x == s[i] {
            assert(s.take(i + 1)[i] == x);
        } else {
            let k = choose|k: int| 0 <= k < i && #[trigger] s.take(i)[k] == x;
            assert(s.take(i + 1)[k] == x);
        }
    }
}

/// A plain element-wise copy of a list of ids.
fn copy_ids(v: &Vec<u64>) -> (r: Vec<u64>)
    ensures
        r@ == v@,
{
    let mut r: Vec<u64> = Vec::new();
    let mut i: usize = 0;
    while i < v.len()
        invariant
            i <= v@.len(),
            r@ == v@.take(i as int),
        decreases v@.len() - i,
    {
        r.push(v[i]);
        proof {
            assert(r@ =~= v@.take(i + 1));
        }
        i += 1;
    }
    proof {
        assert(v@.take(v@.len() as int) =~= v@);
    }
    r
}

impl Ledger {
    /// Runs the per-block lifecycle at the new block height `h`: sets the
    /// clock, resets the auction-creation budget, and drains the expiry
    /// bucket of `h` — the first `MAX_AUCTIONS_PER_BLOCK` auctions therein
    /// are settled, any beyond that budget are voided, and the bucket is
    /// discarded.  Each settled auction's outcome is the one `settle` gives;
    /// each voided auction's, the one `void_auction` gives.
    pub fn on_new_block(&mut self, h: u64)
        requires
            old(self).wf(),
            h > old(self).now,
        ensures
            final(self).wf(),
            final(self).now == h,
            final(self).auctions_created == 0,
            !final(self).buckets@.contains_key(h),
            final(self).buckets@.dom() == old(self).buckets@.dom().remove(h),
            (forall|b: u64|
                old(self).buckets@.contains_key(b) && b != h ==> final(self).buckets@[b] == old(
                    self,
                ).buckets@[b]),
            (forall|x: u64|
                #[trigger] final(self).auctions@.contains_key(x) <==> (old(
                    self,
                ).auctions@.contains_key(x) && !expiring(*old(self), h).contains(x))),
            (forall|x: u64|
                #[trigger] final(self).auctions@.contains_key(x) ==> final(self).auctions@[x]
                    == old(self).auctions@[x]),
            final(self).mogwais@.dom() == old(self).mogwais@.dom(),
            final(self).bios@ == old(self).bios@,
            final(self).all_index@ == old(self).all_index@,
            (forall|j: int|
                0 <= j < expiring(*old(self), h).len() && j < MAX_AUCTIONS_PER_BLOCK as int
                    ==> settled_at(*old(self), *final(self), expiring(*old(self), h)[j])),
            (forall|j: int|
                MAX_AUCTIONS_PER_BLOCK as int <= j < expiring(*old(self), h).len() ==> lapsed_at(
                    *old(self),
                    *final(self),
                    expiring(*old(self), h)[j],
                )),
            (forall|x: u64|
                !expiring(*old(self), h).contains(x) ==> (final(self).owners@.contains_key(x)
                    == old(self).owners@.contains_key(x) && (old(self).owners@.contains_key(x)
                    ==> final(self).owners@[x] == old(self).owners@[x]) && (old(
                    self,
                ).mogwais@.contains_key(x) ==> final(self).mogwais@[x] == old(
                    self,
                ).mogwais@[x]))),
            final(self).key == old(self).key,
            final(self).something == old(self).something,
            final(self).events@ == old(self).events@,
            final(self).nonce == old(self).nonce,
    {
        self.now = h;
        self.auctions_created = 0;
        let ids: Vec<u64> = match self.buckets.get(h) {
            Some(v) => copy_ids(v),
            None => Vec::new(),
        };
        let ghost ids0 = expiring(*old(self), h);
        proof {
            assert(ids@ == ids0);
        }
        let mut i: usize = 0;
        while i < ids.len()
            invariant
                old(self).wf(),
                self.wf(),
                i <= ids@.len(),
                ids@ == ids0,
                ids0 == expiring(*old(self), h),
                ids0.no_duplicates(),
                ids0.len() > 0 ==> old(self).buckets@.contains_key(h),
                (forall|k: int|
                    0 <= k < ids0.len() ==> old(self).auctions@.contains_key(#[trigger] ids0[k])
                        && old(self).auctions@[ids0[k]].expiry == h),
                self.now == h,
                self.auctions_created == 0,
                self.key == old(self).key,
                self.something == old(self).something,
                self.events@ == old(self).events@,
                self.nonce == old(self).nonce,
                self.bios@ == old(self).bios@,
                self.all_index@ == old(self).all_index@,
                self.mogwais@.dom() == old(self).mogwais@.dom(),
                self.buckets@.dom() == old(self).buckets@.dom(),
                (forall|b: u64|
                    old(self).buckets@.contains_key(b) && b != h ==> self.buckets@[b] == old(
                        self,
                    ).buckets@[b]),
                old(self).buckets@.contains_key(h) ==> (forall|x: u64|
                    #[trigger] self.buckets@[h]@.contains(x) <==> (ids0.contains(x)
                        && !ids0.take(i as int).contains(x))),
                (forall|x: u64|
                    #[trigger] self.auctions@.contains_key(x) <==> (old(
                        self,
                    ).auctions@.contains_key(x) && !ids0.take(i as int).contains(x))),
                (forall|x: u64|
                    #[trigger] self.auctions@.contains_key(x) ==> self.auctions@[x] == old(
                        self,
                    ).auctions@[x]),
                (forall|x: u64|
                    !ids0.take(i as int).contains(x) ==> (self.owners@.contains_key(x) == old(
                        self,
                    ).owners@.contains_key(x) && (old(self).owners@.contains_key(x)
                        ==> self.owners@[x] == old(self).owners@[x]) && (old(
                        self,
                    ).mogwais@.contains_key(x) ==> self.mogwais@[x] == old(self).mogwais@[x]))),
                (forall|j: int|
                    0 <= j < i && j < MAX_AUCTIONS_PER_BLOCK as int ==> settled_at(
                        *old(self),
                        *self,
                        ids0[j],
                    )),
                (forall|j: int|
                    MAX_AUCTIONS_PER_BLOCK as int <= j < i ==> lapsed_at(
                        *old(self),
                        *self,
                        ids0[j],
                    )),
            decreases ids@.len() - i,
        {
            let id = ids[i];
            proof {
                assert(0 <= i < ids0.len());
                assert(!ids0.take(i as int).contains(id)) by {
                    if ids0.take(i as int).contains(id) {
                        let k = choose|k: int|
                            0 <= k < i && ids0.take(i as int)[k] == id;
                        assert(ids0[k] == id && ids0[i as int] == id);
                    }
                }
                assert(self.auctions@.contains_key(id));
            }
            let ghost pre = *self;
            if (i as u64) < MAX_AUCTIONS_PER_BLOCK {
                self.settle(id);
            } else {
                self.void_auction(id);
            }
            proof {
                lemma_take_step(ids0, i as int);
                assert(!ids0.take(i as int).contains(id));
                assert(pre.mogwais@.contains_key(id) && pre.mogwais@[id] == old(
                    self,
                ).mogwais@[id]);
                assert(pre.owners@.contains_key(id) && pre.owners@[id] == old(self).owners@[id]);
                assert forall|x: u64| #[trigger] self.auctions@.contains_key(x) <==> (old(
                    self,
                ).auctions@.contains_key(x) && !ids0.take(i + 1).contains(x)) by {
                    assert(pre.auctions@.contains_key(x) <==> (old(self).auctions@.contains_key(x)
                        && !ids0.take(i as int).contains(x)));
                    assert(ids0.take(i + 1).contains(x) <==> (ids0.take(i as int).contains(x)
                        || x == id));
                }
                assert(old(self).buckets@.contains_key(h));
                assert forall|x: u64| #[trigger] self.buckets@[h]@.contains(x) <==> (
                ids0.contains(x) && !ids0.take(i + 1).contains(x)) by {
                    assert(pre.auctions@[id].expiry == h);
                }
                assert forall|j: int| 0 <= j < i + 1 && j < MAX_AUCTIONS_PER_BLOCK as int
                    implies settled_at(*old(self), *self, ids0[j]) by {
                    if j < i {
                        assert(settled_at(*old(self), pre, ids0[j]));
                        assert(ids0[j] != id);
                    } else {
                        assert(pre.auctions@[id] == old(self).auctions@[id]);
                    }
                }
                assert forall|j: int| MAX_AUCTIONS_PER_BLOCK as int <= j < i + 1 implies
                    lapsed_at(*old(self), *self, ids0[j]) by {
                    if j < i {
                        assert(lapsed_at(*old(self), pre, ids0[j]));
                        assert(ids0[j] != id);
                    } else {
                        assert(pre.auctions@[id] == old(self).auctions@[id]);
                    }
                }
            }
            i += 1;
        }
        proof {
            assert(ids0.take(ids0.len() as int) =~= ids0);
        }
        let ghost before = *self;
        self.buckets.remove(h);
        proof {
            assert(self.buckets@.dom() =~= old(self).buckets@.dom().remove(h));
            assert forall|aid: u64| #[trigger] self.auctions@.contains_key(aid) implies
                self.auctions@[aid].expiry != h by {
                let x = self.auctions@[aid];
                if x.expiry == h {
                    assert(before.buckets@.contains_key(h) && before.buckets@[h]@.contains(aid));
                    assert(old(self).buckets@.contains_key(h));
                    assert(ids0.contains(aid));
                }
            }
            assert forall|aid: u64| #[trigger] self.auctions@.contains_key(aid) implies {
                let x = self.auctions@[aid];
                self.buckets@.contains_key(x.expiry) && self.buckets@[x.expiry]@.contains(aid)
            } by {
                let x = self.auctions@[aid];
                assert(before.buckets@.contains_key(x.expiry) && before.buckets@[
                    x.expiry
                ]@.contains(aid));
                assert(x.expiry != h);
            }
        }
    }
}

/// What settling leaves of one expiring auction: with a real high bidder the
/// creature now belongs to the winner and carries the high bid as its price;
/// with none, ownership and record are unchanged.
pub open spec fn settled_at(prev: Ledger, cur: Ledger, id: u64) -> bool {
    let a = prev.auctions@[id];
    match a.high_bidder {
        Some(w) => cur.owners@.contains_key(id) && cur.owners@[id] == w && cur.mogwais@[id] == (
        MogwaiStruct { price: a.high_bid, ..prev.mogwais@[id] }),
        None => cur.owners@.contains_key(id) && cur.owners@[id] == prev.owners@[id]
            && cur.mogwais@[id] == prev.mogwais@[id],
    }
}

/// What voiding leaves of one expiring auction: ownership and record are
/// unchanged whether or not a high bidder existed.
pub open spec fn lapsed_at(prev: Ledger, cur: Ledger, id: u64) -> bool {
    cur.owners@.contains_key(id) && cur.owners@[id] == prev.owners@[id] && cur.mogwais@[id]
        == prev.mogwais@[id]
}

} // verus!
