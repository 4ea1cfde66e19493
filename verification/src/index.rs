//! The enumerable index: a dense array of creature ids paired with a reverse
//! map from id to array position, updated in lockstep.  It gives O(1) append,
//! O(1) swap-remove and stable external numbering over a domain of ids; one
//! instance numbers all creatures, one per owner numbers that owner's.
//!
//! Swap-remove does not preserve array order across removals: only membership
//! and count are guaranteed, which is the accepted trade-off for O(1) removal.

use vstd::prelude::*;
use crate::store::KeyedStore;
use crate::types::Error;

verus! {

/// A dense enumeration index.  `self@` is the array of ids in slot order;
/// `self.positions()` is the reverse map from id to slot.
pub struct EnumIndex {
    slots: Vec<u64>,
    rev: KeyedStore<u64>,
}

impl View for EnumIndex {
    type V = Seq<u64>;

    closed spec fn view(&self) -> Seq<u64> {
        self.slots@
    }
}

impl EnumIndex {
    /// The reverse map: each member id to the slot holding it.
    pub closed spec fn positions(self) -> Map<u64, u64> {
        self.rev@
    }

    /// Well-formedness: the array and the reverse map mirror each other
    /// exactly.  Every slot's id maps back to that slot, and every mapped id
    /// sits in the slot it maps to; the array therefore has no duplicates.
    pub open spec fn wf(self) -> bool {
        &&& forall|p: int|
            0 <= p < self@.len() ==> self.positions().contains_key(#[trigger] self@[p])
                && self.positions()[self@[p]] as int == p
        &&& forall|id: u64|
            #[trigger] self.positions().contains_key(id) ==> (self.positions()[id] as int)
                < self@.len() && self@[self.positions()[id] as int] == id
    }

    /// Membership of an id in the index.
    pub open spec fn has(self, id: u64) -> bool {
        self.positions().contains_key(id)
    }

    /// A well-formed index holds no id twice.
    pub proof fn lemma_no_duplicates(self)
        requires
            self.wf(),
        ensures
            self@.no_duplicates(),
    {
        assert forall|i: int, j: int|
            0 <= i < self@.len() && 0 <= j < self@.len() && i != j implies self@[i]
            != self@[j] by {
            assert(self.positions()[self@[i]] as int == i);
            assert(self.positions()[self@[j]] as int == j);
        }
    }

    /// Membership in the reverse map and in the array agree.
    pub proof fn lemma_has_is_contains(self, id: u64)
        requires
            self.wf(),
        ensures
            self.has(id) == self@.contains(id),
    {
        if self.has(id) {
            assert(self@[self.positions()[id] as int] == id);
        }
        if self@.contains(id) {
            let p = choose|p: int| 0 <= p < self@.len() && self@[p] == id;
            assert(self.positions().contains_key(self@[p]));
        }
    }

    /// An empty index.
    pub fn new() -> (s: Self)
        ensures
            s.wf(),
            s@ == Seq::<u64>::empty(),
            s.positions() == Map::<u64, u64>::empty(),
    {
        EnumIndex { slots: Vec::new(), rev: KeyedStore::new() }
    }

    /// The number of ids held, which always equals the array length.
    pub fn count(&self) -> (r: u64)
        requires
            self@.len() <= u64::MAX,
        ensures
            r == self@.len(),
    {
        self.slots.len() as u64
    }

    /// Whether `id` is in the index.
    pub fn contains(&self, id: u64) -> (r: bool)
        ensures
            r == self.has(id),
    {
        self.rev.contains(id)
    }

    /// The id stored at slot `p`, if `p` is within the array.
    pub fn id_at(&self, p: u64) -> (r: Option<u64>)
        ensures
            match r {
                Some(id) => p < self@.len() && id == self@[p as int],
                None => p >= self@.len(),
            },
    {
        if p < self.slots.len() as u64 {
            Some(self.slots[p as usize])
        } else {
            None
        }
    }

    /// The slot holding `id`, if `id` is a member.
    pub fn position_of(&self, id: u64) -> (r: Option<u64>)
        ensures
            match r {
                Some(p) => self.has(id) && p == self.positions()[id],
                None => !self.has(id),
            },
    {
        match self.rev.get(id) {
            Some(p) => Some(*p),
            None => None,
        }
    }

    /// Appends `id` at position `count`, records the reverse mapping and
    /// grows the count by one.  Appending an id already present is a caller
    /// bug, excluded by precondition rather than reported as an error.
    pub fn append(&mut self, id: u64) -> (p: u64)
        requires
            old(self).wf(),
            !old(self).has(id),
            old(self)@.len() < u64::MAX,
        ensures
            final(self).wf(),
            p == old(self)@.len(),
            final(self)@ == old(self)@.push(id),
            final(self).positions() == old(self).positions().insert(id, p),
    {
        let p = self.slots.len() as u64;
        self.slots.push(id);
        self.rev.set(id, p);
        assert forall|q: int| 0 <= q < self@.len() implies self.positions().contains_key(
            #[trigger] self@[q],
        ) && self.positions()[self@[q]] == q as u64 by {
            if q < old(self)@.len() {
                assert(old(self)@[q] == self@[q]);
            }
        }
        p
    }

    /// Removes `id` by moving the last slot's id into its place: the array
    /// shrinks by one, the moved id's reverse mapping is rewritten, and every
    /// other member keeps its slot.  Fails with `NotFound` when `id` is not a
    /// member, leaving the index unchanged.
    pub fn swap_remove(&mut self, id: u64) -> (r: Result<(), Error>)
        requires
            old(self).wf(),
        ensures
            final(self).wf(),
            match r {
                Ok(()) => {
                    let p = old(self).positions()[id] as int;
                    let last = old(self)@.len() - 1;
                    &&& old(self).has(id)
                    &&& final(self)@.len() == old(self)@.len() - 1
                    &&& final(self)@ == (if p == last {
                        old(self)@.drop_last()
                    } else {
                        old(self)@.update(p, old(self)@.last()).drop_last()
                    })
                    &&& final(self).positions() == (if p == last {
                        old(self).positions().remove(id)
                    } else {
                        old(self).positions().remove(id).insert(old(self)@.last(), p as u64)
                    })
                    &&& forall|x: u64|
                        #[trigger] final(self).has(x) <==> (old(self).has(x) && x != id)
                },
                Err(e) => {
                    &&& e == Error::NotFound
                    &&& !old(self).has(id)
                    &&& *final(self) == *old(self)
                },
            },
    {
        let p: u64 = match self.rev.get(id) {
            Some(q) => *q,
            None => {
                return Err(Error::NotFound);
            },
        };
        proof {
            assert(old(self).positions().contains_key(id));
            assert((p as int) < self@.len());
        }
        let last: u64 = self.slots.len() as u64 - 1;
        if p != last {
            let last_id = self.slots[last as usize];
            self.slots[p as usize] = last_id;
            self.rev.set(last_id, p);
        }
        self.slots.pop();
        self.rev.remove(id);
        proof {
            let oldv = old(self)@;
            let pi = p as int;
            assert forall|q: int| 0 <= q < self@.len() implies self.positions().contains_key(
                #[trigger] self@[q],
            ) && self.positions()[self@[q]] == q as u64 by {
                if pi != last && q == pi {
                    assert(self@[q] == oldv.last());
                } else {
                    assert(self@[q] == oldv[q]);
                    assert(old(self).positions()[oldv[q]] == q as u64);
                    assert(oldv[q] != id) by {
                        assert(old(self).positions()[id] == p);
                    }
                    if pi != last {
                        assert(oldv[q] != oldv.last()) by {
                            assert(old(self).positions()[oldv.last()] == last as u64);
                        }
                    }
                }
            }
            assert forall|x: u64| #[trigger] self.positions().contains_key(x) implies
                self.positions()[x] < self@.len() && self@[self.positions()[x] as int] == x by {
                if pi != last && x == oldv.last() {
                    assert(self@[pi] == x);
                } else {
                    assert(old(self).positions()[x] == self.positions()[x]);
                    assert(oldv[self.positions()[x] as int] == x);
                }
            }
        }
        Ok(())
    }
}

} // verus!
