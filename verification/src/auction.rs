//! The auction book: the state machine that lists a creature for sale,
//! raises its price through bids, and cancels contested-free listings.  Each
//! creature has at most one live auction, kept in two indices at once: keyed
//! by the creature id for lookup and bidding, and listed in the expiry
//! bucket of its expiry block for scheduled settlement.

use vstd::prelude::*;
use crate::currency::min_u64;
use crate::currency::sat_add;
use crate::ledger::Ledger;
use crate::types::Auction;
use crate::types::Error;
use crate::types::MogwaiStruct;
use crate::types::MAX_AUCTIONS_PER_BLOCK;

verus! {

/// Removes the first occurrence of `id` from `v`, keeping the order of the
/// remaining entries, and says whether one was found.
pub(crate) fn remove_id(v: &mut Vec<u64>, id: u64) -> (found: bool)
    ensures
        found ==> (exists|i: int|
            0 <= i < old(v)@.len() && old(v)@[i] == id && final(v)@ == old(v)@.remove(i)),
        !found ==> *final(v) == *old(v) && !old(v)@.contains(id),
{
    let mut i: usize = 0;
    while i < v.len()
        invariant
            i <= v@.len(),
            *v == *old(v),
            forall|j: int| 0 <= j < i ==> v@[j] != id,
        decreases v@.len() - i,
    {
        if v[i] == id {
            v.remove(i);
            return true;
        }
        i += 1;
    }
    false
}

/// What removing one position from a duplicate-free sequence leaves:
/// duplicate-freedom, membership of everything but the removed id, and only
/// ids that were already there.
pub proof fn lemma_remove_at(s: Seq<u64>, i: int)
    requires
        0 <= i < s.len(),
        s.no_duplicates(),
    ensures
        s.remove(i).no_duplicates(),
        forall|x: u64| s.remove(i).contains(x) <==> (s.contains(x) && x != s[i]),
        forall|j: int| 0 <= j < s.remove(i).len() ==> s.contains(#[trigger] s.remove(i)[j]),
{
    s.remove_ensures(i);
    let t = s.remove(i);
    assert forall|j: int| 0 <= j < t.len() implies s.contains(#[trigger] t[j]) by {
        if j < i {
            assert(t[j] == s[j]);
        } else {
            assert(t[j] == s[j + 1]);
        }
    }
    assert forall|x: u64| t.contains(x) implies s.contains(x) && x != s[i] by {
        let j = choose|j: int| 0 <= j < t.len() && t[j] == x;
        if j < i {
            assert(s[j] == x);
        } else {
            assert(s[j + 1] == x);
        }
    }
    assert forall|x: u64| s.contains(x) && x != s[i] implies t.contains(x) by {
        let j = choose|j: int| 0 <= j < s.len() && s[j] == x;
        if j < i {
            assert(t[j] == x);
        } else {
            assert(t[j - 1] == x);
        }
    }
    assert forall|j: int, k: int| 0 <= j < k < t.len() implies t[j] != t[k] by {
        let js: int = if j < i {
            j
        } else {
            j + 1
        };
        let ks: int = if k < i {
            k
        } else {
            k + 1
        };
        assert(t[j] == s[js]);
        assert(t[k] == s[ks]);
    }
}

impl Ledger {
    /// Lists a creature for sale.  Requires the requester to own it, no live
    /// auction over it, a positive duration, and room in this block's
    /// auction-creation budget; computes `expiry = now + duration`, writes
    /// the auction with `high_bid = min_bid` and no high bidder yet, and
    /// appends the creature id into the expiry bucket.  A rejected call
    /// leaves the ledger unchanged.
    pub fn create_auction(
        &mut self,
        id: u64,
        requester: u64,
        min_bid: u64,
        duration: u64,
    ) -> (r: Result<(), Error>)
        requires
            old(self).wf(),
            old(self).now + duration <= u64::MAX,
        ensures
            final(self).wf(),
            (match r {
                Ok(()) => {
                    let expiry = (old(self).now + duration) as u64;
                    &&& old(self).owners@.contains_key(id) && old(self).owners@[id] == requester
                    &&& !old(self).auctions@.contains_key(id)
                    &&& duration > 0
                    &&& old(self).auctions_created < MAX_AUCTIONS_PER_BLOCK
                    &&& final(self).auctions@ == old(self).auctions@.insert(
                        id,
                        (Auction {
                            mogwai_id: id,
                            mogwai_owner: requester,
                            expiry,
                            min_bid,
                            high_bid: min_bid,
                            high_bidder: None,
                        }),
                    )
                    &&& final(self).buckets@.dom() == old(self).buckets@.dom().insert(expiry)
                    &&& final(self).buckets@[expiry]@ == (if old(self).buckets@.contains_key(
                        expiry,
                    ) {
                        old(self).buckets@[expiry]@
                    } else {
                        Seq::<u64>::empty()
                    }).push(id)
                    &&& (forall|b: u64|
                        old(self).buckets@.contains_key(b) && b != expiry ==> final(self).buckets@[b] == old(self).buckets@[b])
                    &&& final(self).auctions_created == old(self).auctions_created + 1
                },
                Err(e) => {
                    &&& *final(self) == *old(self)
                    &&& (match e {
                        Error::NotFound => !old(self).owners@.contains_key(id),
                        Error::PreconditionViolation => old(self).owners@.contains_key(id) && (old(self).owners@[id] != requester || old(self).auctions@.contains_key(id)
                            || duration == 0),
                        Error::CapacityExceeded => old(self).owners@.contains_key(id) && old(self).owners@[id] == requester && !old(self).auctions@.contains_key(id)
                            && duration > 0 && old(self).auctions_created
                            >= MAX_AUCTIONS_PER_BLOCK,
                        _ => false,
                    })
                },
            }),
            final(self).mogwais@ == old(self).mogwais@,
            final(self).bios@ == old(self).bios@,
            final(self).owners@ == old(self).owners@,
            final(self).all_index@ == old(self).all_index@,
            final(self).owned@ == old(self).owned@,
            final(self).bids@ == old(self).bids@,
            final(self).currency@ == old(self).currency@,
            final(self).key == old(self).key,
            final(self).something == old(self).something,
            final(self).events@ == old(self).events@,
            final(self).now == old(self).now,
            final(self).nonce == old(self).nonce,
    {
        let owner = match self.owners.get(id) {
            Some(o) => *o,
            None => {
                return Err(Error::NotFound);
            },
        };
        if owner != requester || self.auctions.contains(id) || duration == 0 {
            return Err(Error::PreconditionViolation);
        }
        if self.auctions_created >= MAX_AUCTIONS_PER_BLOCK {
            return Err(Error::CapacityExceeded);
        }
        let expiry = self.now + duration;
        let auction = Auction {
            mogwai_id: id,
            mogwai_owner: requester,
            expiry,
            min_bid,
            high_bid: min_bid,
            high_bidder: None,
        };
        self.auctions.set(id, auction);
        let mut bucket = match self.buckets.take(expiry) {
            Some(v) => v,
            None => Vec::new(),
        };
        proof {
            if old(self).buckets@.contains_key(expiry) {
                assert forall|i: int| 0 <= i < bucket@.len() implies bucket@[i] != id by {
                    assert(old(self).auctions@.contains_key(bucket@[i]));
                }
            }
        }
        bucket.push(id);
        self.buckets.set(expiry, bucket);
        self.auctions_created = self.auctions_created + 1;
        proof {
            assert(self.buckets@.dom() =~= old(self).buckets@.dom().insert(expiry));
            let oldb = if old(self).buckets@.contains_key(expiry) {
                old(self).buckets@[expiry]@
            } else {
                Seq::<u64>::empty()
            };
            assert forall|aid: u64| #[trigger] self.auctions@.contains_key(aid) implies {
                let a = self.auctions@[aid];
                self.buckets@.contains_key(a.expiry) && self.buckets@[a.expiry]@.contains(aid)
            } by {
                if aid != id {
                    let a = old(self).auctions@[aid];
                    assert(old(self).buckets@[a.expiry]@.contains(aid));
                    if a.expiry == expiry {
                        let i = choose|i: int| 0 <= i < oldb.len() && oldb[i] == aid;
                        assert(self.buckets@[expiry]@[i] == aid);
                    }
                } else {
                    assert(self.buckets@[expiry]@[oldb.len() as int] == id);
                }
            }
            assert forall|b: u64| #[trigger] self.buckets@.contains_key(b) implies {
                let v = self.buckets@[b]@;
                v.no_duplicates() && (forall|i: int|
                    0 <= i < v.len() ==> self.auctions@.contains_key(#[trigger] v[i])
                        && self.auctions@[v[i]].expiry == b)
            } by {
                if b == expiry {
                    let v = self.buckets@[b]@;
                    assert(v == oldb.push(id));
                    assert forall|i: int| 0 <= i < v.len() implies self.auctions@.contains_key(
                        #[trigger] v[i],
                    ) && self.auctions@[v[i]].expiry == b by {
                        if i < oldb.len() {
                            assert(v[i] == oldb[i]);
                            assert(old(self).auctions@.contains_key(oldb[i]));
                        } else {
                            assert(v[i] == id);
                        }
                    }
                    assert forall|i: int, j: int| 0 <= i < j < v.len() implies v[i] != v[j] by {
                        if j == oldb.len() {
                            assert(v[i] == oldb[i]);
                            assert(old(self).auctions@.contains_key(oldb[i]));
                        }
                    }
                }
            }
        }
        Ok(())
    }

    /// Places a bid: reserves `amount` from the bidder, releases the
    /// previous high bidder's reservation — on a well-formed ledger the
    /// released amount equals the previous high bid — rewrites the bid list
    /// to the new high entry and raises the high bid.  Every successful bid
    /// strictly increases `high_bid`.  A rejected call leaves the ledger
    /// unchanged.
    pub fn bid(&mut self, id: u64, bidder: u64, amount: u64) -> (r: Result<(), Error>)
        requires
            old(self).wf(),
        ensures
            final(self).wf(),
            (match r {
                Ok(()) => {
                    let a = old(self).auctions@[id];
                    &&& old(self).auctions@.contains_key(id)
                    &&& bidder != a.mogwai_owner
                    &&& a.high_bidder != Some(bidder)
                    &&& amount > a.high_bid
                    &&& old(self).currency.free_of(bidder) >= amount
                    &&& final(self).auctions@ == old(self).auctions@.insert(
                        id,
                        (Auction { high_bid: amount, high_bidder: Some(bidder), ..a }),
                    )
                    &&& final(self).auctions@[id].high_bid > old(self).auctions@[id].high_bid
                    &&& final(self).bids@.dom() == old(self).bids@.dom().insert(id)
                    &&& final(self).bids@[id]@ == seq![(bidder, amount)]
                    &&& (forall|x: u64|
                        old(self).bids@.contains_key(x) && x != id ==> final(self).bids@[x] == old(self).bids@[x])
                    &&& final(self).currency.free_of(bidder) == old(self).currency.free_of(bidder)
                        - amount
                    &&& final(self).currency.reserved_of(bidder) == sat_add(
                        old(self).currency.reserved_of(bidder),
                        amount,
                    )
                    &&& (match a.high_bidder {
                        Some(prev) => {
                            let actual = min_u64(
                                a.high_bid,
                                old(self).currency.reserved_of(prev),
                            );
                            &&& final(self).currency.free_of(prev) == sat_add(
                                old(self).currency.free_of(prev),
                                actual,
                            )
                            &&& final(self).currency.reserved_of(prev) == old(self).currency.reserved_of(prev) - actual
                        },
                        None => true,
                    })
                    &&& (forall|c: u64|
                        #![trigger final(self).currency.free_of(c)]
                        #![trigger final(self).currency.reserved_of(c)]
                        c != bidder && a.high_bidder != Some(c) ==> final(self).currency.free_of(c) == old(self).currency.free_of(c) && final(self).currency.reserved_of(c) == old(self).currency.reserved_of(c))
                },
                Err(e) => {
                    &&& *final(self) == *old(self)
                    &&& (match e {
                        Error::NotFound => !old(self).auctions@.contains_key(id),
                        Error::PreconditionViolation => old(self).auctions@.contains_key(id) && {
                            let a = old(self).auctions@[id];
                            bidder == a.mogwai_owner || a.high_bidder == Some(bidder) || amount
                                <= a.high_bid
                        },
                        Error::InsufficientFunds => old(self).auctions@.contains_key(id) && {
                            let a = old(self).auctions@[id];
                            &&& bidder != a.mogwai_owner
                            &&& a.high_bidder != Some(bidder)
                            &&& amount > a.high_bid
                            &&& old(self).currency.free_of(bidder) < amount
                        },
                        _ => false,
                    })
                },
            }),
            final(self).mogwais@ == old(self).mogwais@,
            final(self).bios@ == old(self).bios@,
            final(self).owners@ == old(self).owners@,
            final(self).all_index@ == old(self).all_index@,
            final(self).owned@ == old(self).owned@,
            final(self).buckets@ == old(self).buckets@,
            final(self).key == old(self).key,
            final(self).something == old(self).something,
            final(self).events@ == old(self).events@,
            final(self).now == old(self).now,
            final(self).auctions_created == old(self).auctions_created,
            final(self).nonce == old(self).nonce,
    {
        let a = match self.auctions.get(id) {
            Some(a) => *a,
            None => {
                return Err(Error::NotFound);
            },
        };
        let is_prev = match a.high_bidder {
            Some(p) => bidder == p,
            None => false,
        };
        if bidder == a.mogwai_owner || is_prev || amount <= a.high_bid {
            return Err(Error::PreconditionViolation);
        }
        match self.currency.reserve(bidder, amount) {
            Ok(()) => (),
            Err(e) => {
                return Err(e);
            },
        }
        let mut entries = match self.bids.take(id) {
            Some(v) => v,
            None => Vec::new(),
        };
        match a.high_bidder {
            Some(prev) => {
                let _released = self.currency.unreserve(prev, a.high_bid);
            },
            None => (),
        }
        entries.clear();
        entries.push((bidder, amount));
        self.bids.set(id, entries);
        self.auctions.set(
            id,
            Auction { high_bid: amount, high_bidder: Some(bidder), ..a },
        );
        proof {
            assert(self.bids@.dom() =~= old(self).bids@.dom().insert(id));
            assert(self.bids@[id]@ =~= seq![(bidder, amount)]);
            assert(self.bids@[id]@[0] == (bidder, amount));
            assert(self.bids@[id]@.contains((bidder, amount)));
            assert forall|aid: u64| #[trigger] self.auctions@.contains_key(aid) implies {
                let x = self.auctions@[aid];
                self.buckets@.contains_key(x.expiry) && self.buckets@[x.expiry]@.contains(aid)
            } by {
                if aid != id {
                    assert(old(self).auctions@.contains_key(aid));
                }
            }
        }
        Ok(())
    }

    /// Cancels an auction.  Allowed only to the owner and only while no real
    /// bid exists; removes the auction from both indices.  A rejected call
    /// leaves the ledger unchanged.
    pub fn cancel_auction(&mut self, id: u64, requester: u64) -> (r: Result<(), Error>)
        requires
            old(self).wf(),
        ensures
            final(self).wf(),
            (match r {
                Ok(()) => {
                    let a = old(self).auctions@[id];
                    &&& old(self).auctions@.contains_key(id)
                    &&& a.mogwai_owner == requester
                    &&& a.high_bidder is None
                    &&& final(self).auctions@ == old(self).auctions@.remove(id)
                    &&& final(self).buckets@.dom() == old(self).buckets@.dom()
                    &&& (forall|x: u64|
                        #[trigger] final(self).buckets@[a.expiry]@.contains(x) <==> (old(self).buckets@[a.expiry]@.contains(x) && x != id))
                    &&& (forall|b: u64|
                        old(self).buckets@.contains_key(b) && b != a.expiry ==> final(self).buckets@[b] == old(self).buckets@[b])
                },
                Err(e) => {
                    &&& *final(self) == *old(self)
                    &&& (match e {
                        Error::NotFound => !old(self).auctions@.contains_key(id),
                        Error::PreconditionViolation => old(self).auctions@.contains_key(id) && (
                        old(self).auctions@[id].mogwai_owner != requester || old(self).auctions@[id].high_bidder is Some),
                        _ => false,
                    })
                },
            }),
            final(self).mogwais@ == old(self).mogwais@,
            final(self).bios@ == old(self).bios@,
            final(self).owners@ == old(self).owners@,
            final(self).all_index@ == old(self).all_index@,
            final(self).owned@ == old(self).owned@,
            final(self).bids@ == old(self).bids@,
            final(self).currency@ == old(self).currency@,
            final(self).key == old(self).key,
            final(self).something == old(self).something,
            final(self).events@ == old(self).events@,
            final(self).now == old(self).now,
            final(self).auctions_created == old(self).auctions_created,
            final(self).nonce == old(self).nonce,
    {
        let a = match self.auctions.get(id) {
            Some(a) => *a,
            None => {
                return Err(Error::NotFound);
            },
        };
        let is_real = match a.high_bidder {
            Some(_) => true,
            None => false,
        };
        if a.mogwai_owner != requester || is_real {
            return Err(Error::PreconditionViolation);
        }
        let mut bucket = match self.buckets.take(a.expiry) {
            Some(v) => v,
            None => {
                proof {
                    assert(false);
                }
                return Err(Error::InternalInvariantViolation);
            },
        };
        let found = remove_id(&mut bucket, id);
        proof {
            assert(found);
            let i = choose|i: int|
                0 <= i < old(self).buckets@[a.expiry]@.len() && old(self).buckets@[a.expiry]@[i]
                    == id && bucket@ == old(self).buckets@[a.expiry]@.remove(i);
            lemma_remove_at(old(self).buckets@[a.expiry]@, i);
        }
        self.buckets.set(a.expiry, bucket);
        self.auctions.remove(id);
        proof {
            assert(self.buckets@.dom() =~= old(self).buckets@.dom());
            assert forall|aid: u64| #[trigger] self.auctions@.contains_key(aid) implies {
                let x = self.auctions@[aid];
                self.buckets@.contains_key(x.expiry) && self.buckets@[x.expiry]@.contains(aid)
            } by {
                let x = old(self).auctions@[aid];
                assert(old(self).buckets@[x.expiry]@.contains(aid));
            }
            assert forall|b: u64| #[trigger] self.buckets@.contains_key(b) implies {
                let v = self.buckets@[b]@;
                v.no_duplicates() && (forall|i: int|
                    0 <= i < v.len() ==> self.auctions@.contains_key(#[trigger] v[i])
                        && self.auctions@[v[i]].expiry == b)
            } by {
                let v = self.buckets@[b]@;
                assert forall|i: int| 0 <= i < v.len() implies self.auctions@.contains_key(
                    #[trigger] v[i],
                ) && self.auctions@[v[i]].expiry == b by {
                    if b == a.expiry {
                        assert(v.contains(v[i]));
                        assert(old(self).buckets@[b]@.contains(v[i]) && v[i] != id);
                    } else {
                        assert(old(self).buckets@[b]@[i] == v[i]);
                        assert(old(self).buckets@[b]@.contains(v[i]));
                        assert(v[i] != id);
                    }
                }
            }
            assert forall|x: u64| #[trigger] self.bids@.contains_key(x) implies
                self.auctions@.contains_key(x) by {
                assert(old(self).bids@.contains_key(x));
                assert(x != id);
            }
        }
        Ok(())
    }

    /// Removing one auction from the book — its record, its expiry-bucket
    /// entry and its bid list — leaves a well-formed ledger, whatever
    /// happened to the account balances.
    pub proof fn lemma_wf_after_auction_removal(self, prev: Ledger, id: u64)
        requires
            prev.wf(),
            prev.auctions@.contains_key(id),
            self.auctions@ == prev.auctions@.remove(id),
            self.bids@ == prev.bids@.remove(id),
            self.buckets@.dom() == prev.buckets@.dom(),
            self.buckets@[prev.auctions@[id].expiry]@.no_duplicates(),
            (forall|x: u64|
                #[trigger] self.buckets@[prev.auctions@[id].expiry]@.contains(x) <==> (
                prev.buckets@[prev.auctions@[id].expiry]@.contains(x) && x != id)),
            (forall|b: u64|
                prev.buckets@.contains_key(b) && b != prev.auctions@[id].expiry
                    ==> self.buckets@[b] == prev.buckets@[b]),
            self.mogwais == prev.mogwais,
            self.bios == prev.bios,
            self.owners == prev.owners,
            self.all_index == prev.all_index,
            self.owned == prev.owned,
            self.nonce == prev.nonce,
        ensures
            self.wf(),
    {
        let a = prev.auctions@[id];
        assert forall|aid: u64| #[trigger] self.auctions@.contains_key(aid) implies {
            let x = self.auctions@[aid];
            &&& x.mogwai_id == aid
            &&& self.mogwais@.contains_key(aid)
            &&& self.owners@.contains_key(aid) && self.owners@[aid] == x.mogwai_owner
            &&& x.high_bid >= x.min_bid
            &&& self.buckets@.contains_key(x.expiry) && self.buckets@[x.expiry]@.contains(aid)
            &&& match x.high_bidder {
                Some(w) => w != x.mogwai_owner && self.bids@.contains_key(aid),
                None => !self.bids@.contains_key(aid),
            }
        } by {
            let x = prev.auctions@[aid];
            assert(prev.buckets@[x.expiry]@.contains(aid));
        }
        assert forall|b: u64| #[trigger] self.buckets@.contains_key(b) implies {
            let v = self.buckets@[b]@;
            &&& v.no_duplicates()
            &&& forall|i: int|
                0 <= i < v.len() ==> self.auctions@.contains_key(#[trigger] v[i])
                    && self.auctions@[v[i]].expiry == b
        } by {
            let v = self.buckets@[b]@;
            assert forall|i: int| 0 <= i < v.len() implies self.auctions@.contains_key(
                #[trigger] v[i],
            ) && self.auctions@[v[i]].expiry == b by {
                if b == a.expiry {
                    assert(v.contains(v[i]));
                    assert(prev.buckets@[b]@.contains(v[i]) && v[i] != id);
                    let j = choose|j: int|
                        0 <= j < prev.buckets@[b]@.len() && prev.buckets@[b]@[j] == v[i];
                    assert(prev.auctions@.contains_key(prev.buckets@[b]@[j]));
                } else {
                    assert(prev.buckets@[b]@[i] == v[i]);
                    assert(prev.auctions@.contains_key(prev.buckets@[b]@[i]));
                    assert(prev.auctions@[v[i]].expiry == b);
                    assert(v[i] != id);
                }
            }
        }
        assert forall|x: u64| #[trigger] self.bids@.contains_key(x) implies
            self.auctions@.contains_key(x) && crate::ledger::bid_entries_wf(
            self.bids@[x]@,
            self.auctions@[x],
        ) by {
            assert(prev.bids@.contains_key(x));
            assert(x != id);
        }
    }

    /// Settles an auction at expiry, called by the block clock driver.  With
    /// no real bid the listing simply lapses: no transfer, no payment.  With
    /// a real high bidder, the winning reservation is captured as the payment
    /// to the seller, every other bidder in the bid list is refunded, the
    /// creature moves to the high bidder and its price becomes the high bid.
    /// Either way the auction leaves both indices together with its bid list,
    /// so settling an id with no auction present — a revisited block, or a
    /// second call — is a no-op, not an error.
    pub fn settle(&mut self, id: u64)
        requires
            old(self).wf(),
        ensures
            final(self).wf(),
            !final(self).auctions@.contains_key(id),
            !old(self).auctions@.contains_key(id) ==> *final(self) == *old(self),
            old(self).auctions@.contains_key(id) ==> {
                let a = old(self).auctions@[id];
                &&& final(self).auctions@ == old(self).auctions@.remove(id)
                &&& final(self).bids@ == old(self).bids@.remove(id)
                &&& final(self).buckets@.dom() == old(self).buckets@.dom()
                &&& (forall|x: u64|
                    #[trigger] final(self).buckets@[a.expiry]@.contains(x) <==> (old(self).buckets@[a.expiry]@.contains(x) && x != id))
                &&& (forall|b: u64|
                    old(self).buckets@.contains_key(b) && b != a.expiry ==> final(self).buckets@[b]
                        == old(self).buckets@[b])
                &&& final(self).all_index@ == old(self).all_index@
                &&& final(self).bios@ == old(self).bios@
                &&& (match a.high_bidder {
                    None => {
                        &&& final(self).owners@ == old(self).owners@
                        &&& final(self).mogwais@ == old(self).mogwais@
                        &&& final(self).owned@ == old(self).owned@
                        &&& final(self).currency@ == old(self).currency@
                    },
                    Some(w) => {
                        let captured = min_u64(a.high_bid, old(self).currency.reserved_of(w));
                        &&& final(self).owners@ == old(self).owners@.insert(id, w)
                        &&& final(self).mogwais@ == old(self).mogwais@.insert(
                            id,
                            (MogwaiStruct { price: a.high_bid, ..old(self).mogwais@[id] }),
                        )
                        &&& final(self).currency.reserved_of(w) == old(self).currency.reserved_of(
                            w,
                        ) - captured
                        &&& final(self).currency.free_of(a.mogwai_owner) == sat_add(
                            old(self).currency.free_of(a.mogwai_owner),
                            captured,
                        )
                        &&& final(self).currency.free_of(w) == old(self).currency.free_of(w)
                        &&& final(self).currency.reserved_of(a.mogwai_owner) == old(self).currency.reserved_of(a.mogwai_owner)
                        &&& (forall|c: u64|
                        #![trigger final(self).currency.free_of(c)]
                        #![trigger final(self).currency.reserved_of(c)]
                            c != w && c != a.mogwai_owner ==> final(self).currency.free_of(c)
                                == old(self).currency.free_of(c) && final(self).currency.reserved_of(c) == old(self).currency.reserved_of(c))
                        &&& final(self).owned@.dom() == old(self).owned@.dom().insert(w)
                        &&& (forall|x: u64|
                            #[trigger] final(self).owned@[a.mogwai_owner].has(x) <==> (old(self).owned@[a.mogwai_owner].has(x) && x != id))
                        &&& (forall|x: u64|
                            #[trigger] final(self).owned@[w].has(x) <==> ((old(self).owned@.contains_key(w) && old(self).owned@[w].has(x)) || x == id))
                        &&& (forall|c: u64|
                        #![trigger final(self).currency.free_of(c)]
                        #![trigger final(self).currency.reserved_of(c)]
                            old(self).owned@.contains_key(c) && c != a.mogwai_owner && c != w
                                ==> final(self).owned@[c] == old(self).owned@[c])
                    },
                })
            },
            final(self).key == old(self).key,
            final(self).something == old(self).something,
            final(self).events@ == old(self).events@,
            final(self).now == old(self).now,
            final(self).auctions_created == old(self).auctions_created,
            final(self).nonce == old(self).nonce,
    {
        let a = match self.auctions.get(id) {
            Some(a) => *a,
            None => {
                return;
            },
        };
        let mut bucket = match self.buckets.take(a.expiry) {
            Some(v) => v,
            None => {
                proof {
                    assert(false);
                }
                return;
            },
        };
        let found = remove_id(&mut bucket, id);
        proof {
            assert(found);
            let i = choose|i: int|
                0 <= i < old(self).buckets@[a.expiry]@.len() && old(self).buckets@[a.expiry]@[i]
                    == id && bucket@ == old(self).buckets@[a.expiry]@.remove(i);
            lemma_remove_at(old(self).buckets@[a.expiry]@, i);
        }
        self.buckets.set(a.expiry, bucket);
        self.auctions.remove(id);
        proof {
            assert(self.buckets@.dom() =~= old(self).buckets@.dom());
        }
        match a.high_bidder {
            None => {
                proof {
                    assert(!old(self).bids@.contains_key(id));
                    assert(self.bids@ =~= old(self).bids@.remove(id));
                    self.lemma_wf_after_auction_removal(*old(self), id);
                }
            },
            Some(w) => {
                let entries = match self.bids.take(id) {
                    Some(v) => v,
                    None => {
                        proof {
                            assert(false);
                        }
                        return;
                    },
                };
                proof {
                    assert(old(self).bids@[id]@.contains((w, a.high_bid)));
                    let j = choose|j: int|
                        0 <= j < old(self).bids@[id]@.len() && old(self).bids@[id]@[j] == (
                        w,
                        a.high_bid,
                        );
                    assert(entries@[0] == (w, a.high_bid));
                    assert(entries@ =~= seq![(w, a.high_bid)]);
                }
                let ghost mid = *self;
                let mut i: usize = 0;
                while i < entries.len()
                    invariant
                        i <= entries@.len(),
                        entries@ == seq![(w, a.high_bid)],
                        *self == mid,
                    decreases entries@.len() - i,
                {
                    let (b, amt) = entries[i];
                    if b != w {
                        let _ = self.currency.unreserve(b, amt);
                    }
                    i += 1;
                }
                let _ = self.currency.transfer_reserved(w, a.mogwai_owner, a.high_bid);
                proof {
                    self.lemma_wf_after_auction_removal(*old(self), id);
                }
                let transferred = self.transfer(id, a.mogwai_owner, w);
                proof {
                    assert(transferred is Ok);
                }
                let m = match self.mogwais.get(id) {
                    Some(m) => *m,
                    None => {
                        proof {
                            assert(false);
                        }
                        return;
                    },
                };
                self.mogwais.set(id, MogwaiStruct { price: a.high_bid, ..m });
                proof {
                    assert(self.mogwais@.dom() =~= old(self).mogwais@.dom());
                    assert(self.mogwais@ =~= old(self).mogwais@.insert(
                        id,
                        (MogwaiStruct { price: a.high_bid, ..old(self).mogwais@[id] }),
                    ));
                    assert(self.bios@.dom() == self.mogwais@.dom());
                    assert(self.bids@ =~= old(self).bids@.remove(id));
                    assert forall|x: u64| #[trigger] self.all_index.has(x) implies
                        self.mogwais@.contains_key(x) by {
                        assert(old(self).mogwais@.contains_key(x));
                    }
                    assert forall|aid: u64| #[trigger] self.auctions@.contains_key(aid) implies
                        self.mogwais@.contains_key(aid) by {
                        assert(old(self).mogwais@.contains_key(aid));
                    }
                }
            },
        }
    }

    /// Voids an auction: every reservation in its bid list, the high
    /// bidder's included, is released, and the auction leaves both indices
    /// together with its bid list.  No transfer and no payment take place.
    /// The block clock driver voids the expiring auctions beyond its
    /// per-block processing budget.  Voiding an id with no auction present
    /// is a no-op.
    pub fn void_auction(&mut self, id: u64)
        requires
            old(self).wf(),
        ensures
            final(self).wf(),
            !final(self).auctions@.contains_key(id),
            !old(self).auctions@.contains_key(id) ==> *final(self) == *old(self),
            old(self).auctions@.contains_key(id) ==> {
                let a = old(self).auctions@[id];
                &&& final(self).auctions@ == old(self).auctions@.remove(id)
                &&& final(self).bids@ == old(self).bids@.remove(id)
                &&& final(self).buckets@.dom() == old(self).buckets@.dom()
                &&& (forall|x: u64|
                    #[trigger] final(self).buckets@[a.expiry]@.contains(x) <==> (old(self).buckets@[a.expiry]@.contains(x) && x != id))
                &&& (forall|b: u64|
                    old(self).buckets@.contains_key(b) && b != a.expiry ==> final(self).buckets@[b]
                        == old(self).buckets@[b])
                &&& final(self).owners@ == old(self).owners@
                &&& final(self).mogwais@ == old(self).mogwais@
                &&& final(self).bios@ == old(self).bios@
                &&& final(self).owned@ == old(self).owned@
                &&& final(self).all_index@ == old(self).all_index@
                &&& (match a.high_bidder {
                    None => final(self).currency@ == old(self).currency@,
                    Some(w) => {
                        let released = min_u64(a.high_bid, old(self).currency.reserved_of(w));
                        &&& final(self).currency.reserved_of(w) == old(self).currency.reserved_of(
                            w,
                        ) - released
                        &&& final(self).currency.free_of(w) == sat_add(
                            old(self).currency.free_of(w),
                            released,
                        )
                        &&& (forall|c: u64|
                        #![trigger final(self).currency.free_of(c)]
                        #![trigger final(self).currency.reserved_of(c)]
                            c != w ==> final(self).currency.free_of(c) == old(self).currency.free_of(c) && final(self).currency.reserved_of(c) == old(self).currency.reserved_of(c))
                    },
                })
            },
            final(self).key == old(self).key,
            final(self).something == old(self).something,
            final(self).events@ == old(self).events@,
            final(self).now == old(self).now,
            final(self).auctions_created == old(self).auctions_created,
            final(self).nonce == old(self).nonce,
    {
        let a = match self.auctions.get(id) {
            Some(a) => *a,
            None => {
                return;
            },
        };
        let mut bucket = match self.buckets.take(a.expiry) {
            Some(v) => v,
            None => {
                proof {
                    assert(false);
                }
                return;
            },
        };
        let found = remove_id(&mut bucket, id);
        proof {
            assert(found);
            let i = choose|i: int|
                0 <= i < old(self).buckets@[a.expiry]@.len() && old(self).buckets@[a.expiry]@[i]
                    == id && bucket@ == old(self).buckets@[a.expiry]@.remove(i);
            lemma_remove_at(old(self).buckets@[a.expiry]@, i);
        }
        self.buckets.set(a.expiry, bucket);
        self.auctions.remove(id);
        let entries = match self.bids.take(id) {
            Some(v) => v,
            None => Vec::new(),
        };
        proof {
            if old(self).bids@.contains_key(id) {
                let w0 = old(self).auctions@[id].high_bidder->Some_0;
                assert(old(self).bids@[id]@.contains((w0, old(self).auctions@[id].high_bid)));
                let j = choose|j: int|
                    0 <= j < old(self).bids@[id]@.len() && old(self).bids@[id]@[j] == (
                    w0,
                    old(self).auctions@[id].high_bid,
                    );
                assert(entries@[0] == (w0, old(self).auctions@[id].high_bid));
                assert(entries@ =~= seq![(w0, old(self).auctions@[id].high_bid)]);
            }
        }
        let ghost mid = *self;
        let mut i: usize = 0;
        while i < entries.len()
            invariant
                i <= entries@.len(),
                old(self).auctions@.contains_key(id),
                (match old(self).auctions@[id].high_bidder {
                    Some(w) => entries@ == seq![(w, old(self).auctions@[id].high_bid)],
                    None => entries@.len() == 0,
                }),
                i > 0 ==> (old(self).auctions@[id].high_bidder matches Some(w) && self.currency@
                    == unreserve_applied(mid.currency@, w, old(self).auctions@[id].high_bid)),
                i == 0 ==> *self == mid,
                (Ledger { currency: mid.currency, ..*self }) == mid,
            decreases entries@.len() - i,
        {
            let (b, amt) = entries[i];
            let _ = self.currency.unreserve(b, amt);
            i += 1;
        }
        proof {
            self.lemma_wf_after_auction_removal(*old(self), id);
            assert(self.bids@ =~= old(self).bids@.remove(id));
        }
    }
}

/// The account map after releasing a reservation of `amount` held by `w`:
/// what `Currency::unreserve` leaves.
pub open spec fn unreserve_applied(
    m: Map<u64, crate::currency::AccountBalance>,
    w: u64,
    amount: u64,
) -> Map<u64, crate::currency::AccountBalance> {
    let actual = min_u64(amount, crate::currency::reserved_in(m, w));
    if actual == 0 {
        m
    } else {
        m.insert(
            w,
            (crate::currency::AccountBalance {
                free: sat_add(crate::currency::free_in(m, w), actual),
                reserved: (crate::currency::reserved_in(m, w) - actual) as u64,
            }),
        )
    }
}

} // verus!
