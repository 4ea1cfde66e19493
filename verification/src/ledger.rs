//! The ledger: all state of the creature registry and the auction book, held
//! in one explicit value.  Every operation validates before it writes, so a
//! rejected operation returns its error with the ledger unchanged, and every
//! operation preserves [`Ledger::wf`], the conjunction of the system's
//! invariants.

use vstd::prelude::*;
use crate::currency::Currency;
use crate::index::EnumIndex;
use crate::store::KeyedStore;
use crate::types::Auction;
use crate::types::Error;
use crate::types::Event;
use crate::types::MogwaiBios;
use crate::types::MogwaiStruct;
use crate::types::RarityType;

verus! {

/// The whole state of the system.  The fields are written only through the
/// operations below, which keep [`Ledger::wf`] true.
pub struct Ledger {
    /// The founder account, set at genesis.
    pub key: u64,
    /// A plain stored counter, settable and incrementable by any account.
    pub something: Option<u32>,
    /// The log of deposited events.
    pub events: Vec<Event>,
    /// The current block height.
    pub now: u64,
    /// How many auctions were created in the current block.
    pub auctions_created: u64,
    /// The monotonic nonce from which fresh creature ids are derived.
    pub nonce: u64,
    /// Creature records by id.
    pub mogwais: KeyedStore<MogwaiStruct>,
    /// Gameplay companion records by creature id.
    pub bios: KeyedStore<MogwaiBios>,
    /// The single owner of each creature.
    pub owners: KeyedStore<u64>,
    /// Dense enumeration of all live creatures.
    pub all_index: EnumIndex,
    /// Dense enumeration of each owner's creatures.
    pub owned: KeyedStore<EnumIndex>,
    /// Live auctions by the id of the creature on sale.
    pub auctions: KeyedStore<Auction>,
    /// Creature ids of the auctions expiring at each block height.
    pub buckets: KeyedStore<Vec<u64>>,
    /// Outstanding reservations per auctioned creature: pairs of bidder and
    /// reserved amount, with the high bidder's amount equal to the high bid.
    pub bids: KeyedStore<Vec<(u64, u64)>>,
    /// The balances of all accounts.
    pub currency: Currency,
}

/// Well-formedness of one auction's bid list: bidders are distinct non-seller
/// accounts with nonzero reservations, and the high bidder's entry holds
/// exactly the high bid.
pub open spec fn bid_entries_wf(entries: Seq<(u64, u64)>, a: Auction) -> bool {
    &&& forall|i: int, j: int|
        0 <= i < j < entries.len() ==> (#[trigger] entries[i]).0 != (#[trigger] entries[j]).0
    &&& forall|i: int|
        0 <= i < entries.len() ==> (#[trigger] entries[i]).1 > 0 && entries[i].0 != a.mogwai_owner
    &&& a.high_bidder matches Some(w) && entries.contains((w, a.high_bid))
}

impl Ledger {
    /// The set of live creature ids.
    pub open spec fn live(self) -> Set<u64> {
        self.mogwais@.dom()
    }

    /// The creature records and their companions exist in lockstep, carry
    /// their own id, and every id is below the nonce it was derived from.
    pub open spec fn wf_records(self) -> bool {
        &&& self.bios@.dom() == self.mogwais@.dom()
        &&& self.owners@.dom() == self.mogwais@.dom()
        &&& forall|id: u64|
            #[trigger] self.mogwais@.contains_key(id) ==> self.mogwais@[id].id == id && id
                < self.nonce
        &&& forall|id: u64|
            #[trigger] self.bios@.contains_key(id) ==> self.bios@[id].mogwai_id == id
    }

    /// The global index enumerates exactly the live creatures, and cannot
    /// hold more of them than ids were ever derived.
    pub open spec fn wf_global_index(self) -> bool {
        &&& self.all_index.wf()
        &&& self.all_index@.len() <= self.nonce
        &&& forall|id: u64| #[trigger] self.all_index.has(id) <==> self.mogwais@.contains_key(id)
    }

    /// The owner indices partition the live creatures: each creature sits in
    /// exactly its owner's index, and every indexed id is owned.
    pub open spec fn wf_owner_indices(self) -> bool {
        &&& forall|a: u64| #[trigger] self.owned@.contains_key(a) ==> self.owned@[a].wf()
        &&& forall|a: u64, id: u64|
            self.owned@.contains_key(a) && #[trigger] self.owned@[a].has(id)
                ==> self.owners@.contains_key(id) && self.owners@[id] == a
        &&& forall|id: u64|
            #[trigger] self.owners@.contains_key(id) ==> self.owned@.contains_key(self.owners@[id])
                && self.owned@[self.owners@[id]].has(id)
    }

    /// Every auction sells a live creature it is keyed by, names the current
    /// owner as seller, keeps its high bid at or above the minimum, sits in
    /// the expiry bucket of its expiry block, and has a bid list exactly when
    /// a real bid exists.
    pub open spec fn wf_auctions(self) -> bool {
        forall|id: u64|
            #[trigger] self.auctions@.contains_key(id) ==> {
                let a = self.auctions@[id];
                &&& a.mogwai_id == id
                &&& self.mogwais@.contains_key(id)
                &&& self.owners@.contains_key(id) && self.owners@[id] == a.mogwai_owner
                &&& a.high_bid >= a.min_bid
                &&& self.buckets@.contains_key(a.expiry) && self.buckets@[a.expiry]@.contains(id)
                &&& match a.high_bidder {
                    Some(w) => w != a.mogwai_owner && self.bids@.contains_key(id),
                    None => !self.bids@.contains_key(id),
                }
            }
    }

    /// Every bucket lists, without duplicates, only auctions expiring at its
    /// block height.
    pub open spec fn wf_buckets(self) -> bool {
        forall|b: u64|
            #[trigger] self.buckets@.contains_key(b) ==> {
                let v = self.buckets@[b]@;
                &&& v.no_duplicates()
                &&& forall|i: int|
                    0 <= i < v.len() ==> self.auctions@.contains_key(#[trigger] v[i])
                        && self.auctions@[v[i]].expiry == b
            }
    }

    /// Every bid list belongs to a live auction with a real high bidder and
    /// is well-formed for it.  Outbid reservations are released the moment
    /// they are outbid, so the list retains one entry: the high bidder's.
    pub open spec fn wf_bids(self) -> bool {
        forall|id: u64|
            #[trigger] self.bids@.contains_key(id) ==> self.auctions@.contains_key(id)
                && bid_entries_wf(self.bids@[id]@, self.auctions@[id]) && self.bids@[id]@.len()
                == 1
    }

    /// The conjunction of all the system's invariants.
    pub open spec fn wf(self) -> bool {
        &&& self.wf_records()
        &&& self.wf_global_index()
        &&& self.wf_owner_indices()
        &&& self.wf_auctions()
        &&& self.wf_buckets()
        &&& self.wf_bids()
    }

    /// An empty ledger whose founder account is `key`.
    pub fn new(key: u64) -> (l: Ledger)
        ensures
            l.wf(),
            l.key == key,
            l.something is None,
            l.events@ == Seq::<Event>::empty(),
            l.now == 0,
            l.auctions_created == 0,
            l.nonce == 0,
            l.mogwais@ == Map::<u64, MogwaiStruct>::empty(),
            l.bios@ == Map::<u64, MogwaiBios>::empty(),
            l.owners@ == Map::<u64, u64>::empty(),
            l.all_index@ == Seq::<u64>::empty(),
            l.owned@ == Map::<u64, EnumIndex>::empty(),
            l.auctions@ == Map::<u64, Auction>::empty(),
            l.buckets@ == Map::<u64, Vec<u64>>::empty(),
            l.bids@ == Map::<u64, Vec<(u64, u64)>>::empty(),
            l.currency@ == Map::<u64, crate::currency::AccountBalance>::empty(),
    {
        Ledger {
            key,
            something: None,
            events: Vec::new(),
            now: 0,
            auctions_created: 0,
            nonce: 0,
            mogwais: KeyedStore::new(),
            bios: KeyedStore::new(),
            owners: KeyedStore::new(),
            all_index: EnumIndex::new(),
            owned: KeyedStore::new(),
            auctions: KeyedStore::new(),
            buckets: KeyedStore::new(),
            bids: KeyedStore::new(),
            currency: Currency::new(),
        }
    }

    /// Stores `something` and deposits the matching event.  Any signed
    /// account may do this.
    pub fn do_something(&mut self, who: u64, something: u32)
        ensures
            final(self).something == Some(something),
            final(self).events@ == old(self).events@.push(Event::SomethingStored(something, who)),
            *final(self) == (Ledger {
                something: Some(something),
                events: final(self).events,
                ..*old(self)
            }),
    {
        self.something = Some(something);
        self.events.push(Event::SomethingStored(something, who));
    }

    /// Increments the stored counter.  Fails with `NoneValue` when nothing
    /// was stored yet, and with `StorageOverflow` when the counter cannot
    /// grow, leaving the ledger unchanged in both cases.
    pub fn cause_error(&mut self, who: u64) -> (r: Result<(), Error>)
        ensures
            match r {
                Ok(()) => old(self).something matches Some(o) && o < u32::MAX && *final(self)
                    == (Ledger { something: Some((o + 1) as u32), ..*old(self) }),
                Err(e) => *final(self) == *old(self) && match e {
                    Error::NoneValue => old(self).something is None,
                    Error::StorageOverflow => old(self).something == Some(u32::MAX),
                    _ => false,
                },
            },
    {
        let _ = who;
        match self.something {
            None => Err(Error::NoneValue),
            Some(o) => {
                if o == u32::MAX {
                    return Err(Error::StorageOverflow);
                }
                self.something = Some(o + 1);
                Ok(())
            },
        }
    }
}

/// What a freshly created gameplay companion record holds: the creature's id
/// and otherwise empty, zeroed state.
pub open spec fn default_bio(b: MogwaiBios, id: u64) -> bool {
    &&& b.mogwai_id == id
    &&& b.state == 0
    &&& b.metaxy@ == Seq::<[u8; 16]>::empty()
    &&& b.intrinsic == 0
    &&& b.level == 0
    &&& b.phases@ == Seq::<u64>::empty()
    &&& b.adaptations@ == Seq::<u64>::empty()
}

impl Ledger {
    /// An owner's index enumerates a subset of the global index, so it is
    /// never the longer of the two.
    pub proof fn lemma_owned_len(self, a: u64)
        requires
            self.wf(),
            self.owned@.contains_key(a),
        ensures
            self.owned@[a]@.len() <= self.all_index@.len(),
    {
        broadcast use vstd::seq_lib::seq_to_set_is_finite;

        let o = self.owned@[a]@;
        let g = self.all_index@;
        self.owned@[a].lemma_no_duplicates();
        self.all_index.lemma_no_duplicates();
        assert forall|x: u64| o.to_set().contains(x) implies g.to_set().contains(x) by {
            self.owned@[a].lemma_has_is_contains(x);
            self.all_index.lemma_has_is_contains(x);
        }
        o.unique_seq_to_set();
        g.unique_seq_to_set();
        vstd::set_lib::lemma_len_subset(o.to_set(), g.to_set());
    }

    /// The strict form of the bound, for a live creature the index does not
    /// hold: there is room for it.
    pub proof fn lemma_owned_len_strict(self, a: u64, id: u64)
        requires
            self.wf(),
            self.owned@.contains_key(a),
            !self.owned@[a].has(id),
            self.mogwais@.contains_key(id),
        ensures
            self.owned@[a]@.len() < self.all_index@.len(),
    {
        broadcast use vstd::seq_lib::seq_to_set_is_finite;

        let o = self.owned@[a]@;
        let g = self.all_index@;
        self.owned@[a].lemma_no_duplicates();
        self.all_index.lemma_no_duplicates();
        self.owned@[a].lemma_has_is_contains(id);
        self.all_index.lemma_has_is_contains(id);
        assert forall|x: u64| o.to_set().insert(id).contains(x) implies g.to_set().contains(
            x,
        ) by {
            self.owned@[a].lemma_has_is_contains(x);
            self.all_index.lemma_has_is_contains(x);
        }
        o.unique_seq_to_set();
        g.unique_seq_to_set();
        assert(o.to_set().insert(id).len() == o.to_set().len() + 1);
        vstd::set_lib::lemma_len_subset(o.to_set().insert(id), g.to_set());
    }

    /// Creates a creature: derives a fresh id from the nonce, writes the
    /// creature and a default companion record, sets ownership and appends
    /// the id to the global index and to the owner's index.  The derived id
    /// colliding with an existing creature is an internal invariant
    /// violation and provably never happens on a well-formed ledger.
    pub fn create(
        &mut self,
        owner: u64,
        dna: u64,
        gen: u32,
        rarity: RarityType,
        price: u64,
    ) -> (r: Result<u64, Error>)
        requires
            old(self).wf(),
            old(self).nonce < u64::MAX,
        ensures
            final(self).wf(),
            (match r {
                Ok(id) => {
                    &&& id == old(self).nonce
                    &&& final(self).nonce == old(self).nonce + 1
                    &&& final(self).mogwais@ == old(self).mogwais@.insert(
                        id,
                        (MogwaiStruct {
                            id,
                            dna,
                            genesis: old(self).now,
                            price,
                            gen,
                            rarity,
                        }),
                    )
                    &&& final(self).bios@ == old(self).bios@.insert(id, final(self).bios@[id])
                    &&& default_bio(final(self).bios@[id], id)
                    &&& final(self).owners@ == old(self).owners@.insert(id, owner)
                    &&& final(self).all_index@ == old(self).all_index@.push(id)
                    &&& final(self).owned@.dom() == old(self).owned@.dom().insert(owner)
                    &&& final(self).owned@[owner]@ == (if old(self).owned@.contains_key(owner) {
                        old(self).owned@[owner]@
                    } else {
                        Seq::<u64>::empty()
                    }).push(id)
                    &&& (forall|a: u64|
                        old(self).owned@.contains_key(a) && a != owner
                            ==> final(self).owned@[a] == old(self).owned@[a])
                },
                Err(_) => false,
            }),
            final(self).auctions@ == old(self).auctions@,
            final(self).buckets@ == old(self).buckets@,
            final(self).bids@ == old(self).bids@,
            final(self).currency@ == old(self).currency@,
            final(self).key == old(self).key,
            final(self).something == old(self).something,
            final(self).events@ == old(self).events@,
            final(self).now == old(self).now,
            final(self).auctions_created == old(self).auctions_created,
    {
        let id = self.nonce;
        if self.mogwais.contains(id) {
            proof {
                assert(false);
            }
            return Err(Error::InternalInvariantViolation);
        }
        self.nonce = id + 1;
        self.mogwais.set(
            id,
            MogwaiStruct { id, dna, genesis: self.now, price, gen, rarity },
        );
        self.bios.set(
            id,
            MogwaiBios {
                mogwai_id: id,
                state: 0,
                metaxy: Vec::new(),
                intrinsic: 0,
                level: 0,
                phases: Vec::new(),
                adaptations: Vec::new(),
            },
        );
        self.owners.set(id, owner);
        proof {
            if old(self).all_index.has(id) {
                assert(old(self).mogwais@.contains_key(id));
            }
        }
        self.all_index.append(id);
        let mut idx = match self.owned.take(owner) {
            Some(i) => i,
            None => EnumIndex::new(),
        };
        proof {
            if old(self).owned@.contains_key(owner) {
                old(self).lemma_owned_len(owner);
                if old(self).owned@[owner].has(id) {
                    assert(old(self).owners@.contains_key(id));
                }
            }
        }
        idx.append(id);
        self.owned.set(owner, idx);
        proof {
            assert(self.bios@.dom() =~= self.mogwais@.dom());
            assert(self.owners@.dom() =~= self.mogwais@.dom());
            assert(self.owned@.dom() =~= old(self).owned@.dom().insert(owner));
            assert(self.bios@ =~= old(self).bios@.insert(id, self.bios@[id]));
            assert forall|x: u64| #[trigger] self.all_index.has(x) implies
                self.mogwais@.contains_key(x) by {
                if x != id {
                    assert(old(self).all_index.has(x));
                }
            }
            assert forall|x: u64| #[trigger] self.mogwais@.contains_key(x) implies
                self.all_index.has(x) by {
                if x != id {
                    assert(old(self).all_index.has(x));
                }
            }
            assert forall|a: u64, x: u64|
                self.owned@.contains_key(a) && #[trigger] self.owned@[a].has(x) implies
                self.owners@.contains_key(x) && self.owners@[x] == a by {
                if a == owner {
                    if x != id {
                        assert(old(self).owned@.contains_key(owner));
                        assert(old(self).owned@[owner].has(x));
                    }
                } else {
                    assert(old(self).owned@[a].has(x));
                }
            }
            assert forall|x: u64| #[trigger] self.owners@.contains_key(x) implies
                self.owned@.contains_key(self.owners@[x])
                && self.owned@[self.owners@[x]].has(x) by {
                if x != id {
                    assert(old(self).owners@.contains_key(x));
                    assert(old(self).owned@[old(self).owners@[x]].has(x));
                }
            }
        }
        Ok(id)
    }

    /// Transfers a creature to a new owner: swap-removes it from the old
    /// owner's index, appends it to the new owner's and rewrites ownership.
    /// Fails with `NotFound` for an unknown creature and with
    /// `PreconditionViolation` when `from` is not the owner, when `from` and
    /// `to` coincide, or when the creature is on auction; a failed transfer
    /// leaves the ledger unchanged.
    pub fn transfer(&mut self, id: u64, from: u64, to: u64) -> (r: Result<(), Error>)
        requires
            old(self).wf(),
        ensures
            final(self).wf(),
            (match r {
                Ok(()) => {
                    &&& old(self).owners@.contains_key(id) && old(self).owners@[id] == from
                    &&& from != to
                    &&& !old(self).auctions@.contains_key(id)
                    &&& final(self).owners@ == old(self).owners@.insert(id, to)
                    &&& final(self).owned@.dom() == old(self).owned@.dom().insert(to)
                    &&& (forall|x: u64|
                        #[trigger] final(self).owned@[from].has(x) <==> (old(self).owned@[from].has(x) && x != id))
                    &&& final(self).owned@[from]@.len() == old(self).owned@[from]@.len() - 1
                    &&& (forall|x: u64|
                        #[trigger] final(self).owned@[to].has(x) <==> ((old(self).owned@.contains_key(to) && old(self).owned@[to].has(x)) || x == id))
                    &&& final(self).owned@[to]@.len() == (if old(self).owned@.contains_key(to) {
                        old(self).owned@[to]@.len() + 1
                    } else {
                        1
                    })
                    &&& (forall|a: u64|
                        old(self).owned@.contains_key(a) && a != from && a != to ==> final(self).owned@[a] == old(self).owned@[a])
                    &&& final(self).mogwais@ == old(self).mogwais@
                    &&& final(self).bios@ == old(self).bios@
                    &&& final(self).all_index@ == old(self).all_index@
                },
                Err(e) => {
                    &&& *final(self) == *old(self)
                    &&& (match e {
                        Error::NotFound => !old(self).owners@.contains_key(id),
                        Error::PreconditionViolation => old(self).owners@.contains_key(id) && (old(self).owners@[id] != from || from == to || old(self).auctions@.contains_key(
                            id,
                        )),
                        _ => false,
                    })
                },
            }),
            final(self).auctions@ == old(self).auctions@,
            final(self).buckets@ == old(self).buckets@,
            final(self).bids@ == old(self).bids@,
            final(self).currency@ == old(self).currency@,
            final(self).key == old(self).key,
            final(self).something == old(self).something,
            final(self).events@ == old(self).events@,
            final(self).now == old(self).now,
            final(self).auctions_created == old(self).auctions_created,
            final(self).nonce == old(self).nonce,
    {
        let owner = match self.owners.get(id) {
            Some(o) => *o,
            None => {
                return Err(Error::NotFound);
            },
        };
        if owner != from || from == to {
            return Err(Error::PreconditionViolation);
        }
        if self.auctions.contains(id) {
            return Err(Error::PreconditionViolation);
        }
        let mut fidx = match self.owned.take(from) {
            Some(i) => i,
            None => {
                proof {
                    assert(false);
                }
                return Err(Error::InternalInvariantViolation);
            },
        };
        let removed = fidx.swap_remove(id);
        proof {
            assert(removed is Ok);
        }
        self.owned.set(from, fidx);
        let mut tidx = match self.owned.take(to) {
            Some(i) => i,
            None => EnumIndex::new(),
        };
        proof {
            if old(self).owned@.contains_key(to) {
                if old(self).owned@[to].has(id) {
                    assert(old(self).owners@[id] == to);
                }
                old(self).lemma_owned_len_strict(to, id);
            }
        }
        tidx.append(id);
        self.owned.set(to, tidx);
        self.owners.set(id, to);
        proof {
            assert(self.owners@.dom() =~= self.mogwais@.dom());
            assert(self.owned@.dom() =~= old(self).owned@.dom().insert(to));
            assert forall|a: u64, x: u64|
                self.owned@.contains_key(a) && #[trigger] self.owned@[a].has(x) implies
                self.owners@.contains_key(x) && self.owners@[x] == a by {
                if a == from {
                    assert(old(self).owned@[from].has(x) && x != id);
                } else if a == to {
                    if x != id {
                        assert(old(self).owned@.contains_key(to));
                        assert(old(self).owned@[to].has(x));
                    }
                } else {
                    assert(old(self).owned@[a].has(x));
                    assert(x != id);
                }
            }
            assert forall|x: u64| #[trigger] self.owners@.contains_key(x) implies
                self.owned@.contains_key(self.owners@[x])
                && self.owned@[self.owners@[x]].has(x) by {
                if x != id {
                    assert(old(self).owners@.contains_key(x));
                    let a = old(self).owners@[x];
                    assert(old(self).owned@[a].has(x));
                }
            }
        }
        Ok(())
    }

    /// Burns a creature: removes the creature, its companion record and its
    /// ownership, and swap-removes it from the global index and its owner's
    /// index.  Irreversible.  Fails with `NotFound` for an unknown creature
    /// and with `PreconditionViolation` while the creature is on auction; a
    /// failed burn leaves the ledger unchanged.
    pub fn burn(&mut self, id: u64) -> (r: Result<(), Error>)
        requires
            old(self).wf(),
        ensures
            final(self).wf(),
            (match r {
                Ok(()) => {
                    let owner = old(self).owners@[id];
                    &&& old(self).owners@.contains_key(id)
                    &&& !old(self).auctions@.contains_key(id)
                    &&& final(self).mogwais@ == old(self).mogwais@.remove(id)
                    &&& final(self).bios@ == old(self).bios@.remove(id)
                    &&& final(self).owners@ == old(self).owners@.remove(id)
                    &&& (forall|x: u64|
                        #[trigger] final(self).all_index.has(x) <==> (old(self).all_index.has(x)
                            && x != id))
                    &&& final(self).all_index@.len() == old(self).all_index@.len() - 1
                    &&& (forall|x: u64|
                        #[trigger] final(self).owned@[owner].has(x) <==> (old(self).owned@[owner].has(x) && x != id))
                    &&& final(self).owned@[owner]@.len() == old(self).owned@[owner]@.len() - 1
                    &&& final(self).owned@.dom() == old(self).owned@.dom()
                    &&& (forall|a: u64|
                        old(self).owned@.contains_key(a) && a != owner ==> final(self).owned@[a]
                            == old(self).owned@[a])
                },
                Err(e) => {
                    &&& *final(self) == *old(self)
                    &&& (match e {
                        Error::NotFound => !old(self).owners@.contains_key(id),
                        Error::PreconditionViolation => old(self).owners@.contains_key(id) && old(self).auctions@.contains_key(id),
                        _ => false,
                    })
                },
            }),
            final(self).auctions@ == old(self).auctions@,
            final(self).buckets@ == old(self).buckets@,
            final(self).bids@ == old(self).bids@,
            final(self).currency@ == old(self).currency@,
            final(self).key == old(self).key,
            final(self).something == old(self).something,
            final(self).events@ == old(self).events@,
            final(self).now == old(self).now,
            final(self).auctions_created == old(self).auctions_created,
            final(self).nonce == old(self).nonce,
    {
        let owner = match self.owners.get(id) {
            Some(o) => *o,
            None => {
                return Err(Error::NotFound);
            },
        };
        if self.auctions.contains(id) {
            return Err(Error::PreconditionViolation);
        }
        let removed_all = self.all_index.swap_remove(id);
        proof {
            assert(removed_all is Ok);
        }
        let mut oidx = match self.owned.take(owner) {
            Some(i) => i,
            None => {
                proof {
                    assert(false);
                }
                return Err(Error::InternalInvariantViolation);
            },
        };
        let removed_own = oidx.swap_remove(id);
        proof {
            assert(removed_own is Ok);
        }
        self.owned.set(owner, oidx);
        self.mogwais.remove(id);
        self.bios.remove(id);
        self.owners.remove(id);
        proof {
            assert(self.bios@.dom() =~= self.mogwais@.dom());
            assert(self.owners@.dom() =~= self.mogwais@.dom());
            assert(self.owned@.dom() =~= old(self).owned@.dom());
        }
        Ok(())
    }
}

impl Ledger {
    /// The stored counter, if one was stored.
    pub fn something(&self) -> (r: Option<u32>)
        ensures
            r == self.something,
    {
        self.something
    }

    /// The founder account.
    pub fn key(&self) -> (r: u64)
        ensures
            r == self.key,
    {
        self.key
    }

    /// The creature stored under `id`, if any.
    pub fn mogwai(&self, id: u64) -> (r: Option<&MogwaiStruct>)
        ensures
            match r {
                Some(m) => self.mogwais@.contains_key(id) && *m == self.mogwais@[id],
                None => !self.mogwais@.contains_key(id),
            },
    {
        self.mogwais.get(id)
    }

    /// The gameplay companion record of the creature `id`, if any.
    pub fn mogwai_bios(&self, id: u64) -> (r: Option<&MogwaiBios>)
        ensures
            match r {
                Some(b) => self.bios@.contains_key(id) && *b == self.bios@[id],
                None => !self.bios@.contains_key(id),
            },
    {
        self.bios.get(id)
    }

    /// The owner of the creature `id`, if the creature exists.
    pub fn owner_of(&self, id: u64) -> (r: Option<u64>)
        ensures
            match r {
                Some(a) => self.owners@.contains_key(id) && a == self.owners@[id],
                None => !self.owners@.contains_key(id),
            },
    {
        match self.owners.get(id) {
            Some(a) => Some(*a),
            None => None,
        }
    }

    /// The creature id enumerated at global position `p`, if `p` is within
    /// the count.
    pub fn mogwai_by_index(&self, p: u64) -> (r: Option<u64>)
        ensures
            match r {
                Some(id) => p < self.all_index@.len() && id == self.all_index@[p as int],
                None => p >= self.all_index@.len(),
            },
    {
        self.all_index.id_at(p)
    }

    /// How many creatures exist.
    pub fn all_mogwais_count(&self) -> (r: u64)
        requires
            self.wf(),
        ensures
            r == self.all_index@.len(),
    {
        self.all_index.count()
    }

    /// How many creatures `a` owns.
    pub fn owned_mogwais_count(&self, a: u64) -> (r: u64)
        requires
            self.wf(),
        ensures
            r == (if self.owned@.contains_key(a) {
                self.owned@[a]@.len()
            } else {
                0
            }),
    {
        match self.owned.get(a) {
            Some(idx) => {
                proof {
                    self.lemma_owned_len(a);
                }
                idx.count()
            },
            None => 0,
        }
    }

    /// The creature id enumerated at position `p` of owner `a`'s index.
    pub fn mogwai_of_owner_by_index(&self, a: u64, p: u64) -> (r: Option<u64>)
        ensures
            match r {
                Some(id) => self.owned@.contains_key(a) && p < self.owned@[a]@.len() && id
                    == self.owned@[a]@[p as int],
                None => !self.owned@.contains_key(a) || p >= self.owned@[a]@.len(),
            },
    {
        match self.owned.get(a) {
            Some(idx) => idx.id_at(p),
            None => None,
        }
    }

    /// The live auction over the creature `id`, if one exists.
    pub fn auction_of(&self, id: u64) -> (r: Option<&Auction>)
        ensures
            match r {
                Some(a) => self.auctions@.contains_key(id) && *a == self.auctions@[id],
                None => !self.auctions@.contains_key(id),
            },
    {
        self.auctions.get(id)
    }

    /// The creature ids of the auctions expiring at block `b`, in insertion
    /// order.
    pub fn auctions_expire_at(&self, b: u64) -> (r: Option<&Vec<u64>>)
        ensures
            match r {
                Some(v) => self.buckets@.contains_key(b) && *v == self.buckets@[b],
                None => !self.buckets@.contains_key(b),
            },
    {
        self.buckets.get(b)
    }

    /// The amount `a` holds reserved behind a bid on the creature `id`, zero
    /// where no such bid exists.
    pub fn bid_of(&self, id: u64, a: u64) -> (r: u64)
        ensures
            !self.bids@.contains_key(id) ==> r == 0,
            self.bids@.contains_key(id) ==> ((exists|i: int|
                0 <= i < self.bids@[id]@.len() && (#[trigger] self.bids@[id]@[i]) == (a, r)) || (
            r == 0 && (forall|i: int|
                0 <= i < self.bids@[id]@.len() ==> (#[trigger] self.bids@[id]@[i]).0 != a))),
    {
        let entries = match self.bids.get(id) {
            Some(v) => v,
            None => {
                return 0;
            },
        };
        let mut i: usize = 0;
        while i < entries.len()
            invariant
                i <= entries@.len(),
                self.bids@.contains_key(id),
                entries@ == self.bids@[id]@,
                forall|j: int| 0 <= j < i ==> (#[trigger] entries@[j]).0 != a,
            decreases entries@.len() - i,
        {
            let (b, amt) = entries[i];
            if b == a {
                proof {
                    assert(self.bids@[id]@[i as int] == (a, amt));
                }
                return amt;
            }
            i += 1;
        }
        0
    }

    /// The accounts holding bids on the creature `id`, in list order.
    pub fn bid_accounts(&self, id: u64) -> (r: Vec<u64>)
        ensures
            !self.bids@.contains_key(id) ==> r@.len() == 0,
            self.bids@.contains_key(id) ==> r@.len() == self.bids@[id]@.len() && (forall|i: int|
                0 <= i < self.bids@[id]@.len() ==> r@[i] == (#[trigger] self.bids@[id]@[i]).0),
    {
        let mut r: Vec<u64> = Vec::new();
        let entries = match self.bids.get(id) {
            Some(v) => v,
            None => {
                return r;
            },
        };
        let mut i: usize = 0;
        while i < entries.len()
            invariant
                i <= entries@.len(),
                self.bids@.contains_key(id),
                entries@ == self.bids@[id]@,
                r@.len() == i,
                forall|j: int| 0 <= j < i ==> r@[j] == (#[trigger] entries@[j]).0,
            decreases entries@.len() - i,
        {
            let (b, _amt) = entries[i];
            r.push(b);
            i += 1;
        }
        r
    }

    /// The free balance of `a`.
    pub fn free_balance(&self, a: u64) -> (r: u64)
        ensures
            r == self.currency.free_of(a),
    {
        self.currency.balance(a).free
    }

    /// The reserved balance of `a`.
    pub fn reserved_balance(&self, a: u64) -> (r: u64)
        ensures
            r == self.currency.reserved_of(a),
    {
        self.currency.balance(a).reserved
    }

    /// Issues `amount` of new funds into `a`'s free balance, saturating at
    /// the maximum; stands for the host's issuance mechanism.
    pub fn endow(&mut self, a: u64, amount: u64)
        requires
            old(self).wf(),
        ensures
            final(self).wf(),
            final(self).currency.free_of(a) == crate::currency::sat_add(
                old(self).currency.free_of(a),
                amount,
            ),
            final(self).currency.reserved_of(a) == old(self).currency.reserved_of(a),
            (forall|c: u64|
                        #![trigger final(self).currency.free_of(c)]
                        #![trigger final(self).currency.reserved_of(c)]
                c != a ==> final(self).currency.free_of(c) == old(self).currency.free_of(c)
                    && final(self).currency.reserved_of(c) == old(self).currency.reserved_of(c)),
            final(self).mogwais@ == old(self).mogwais@,
            final(self).bios@ == old(self).bios@,
            final(self).owners@ == old(self).owners@,
            final(self).all_index@ == old(self).all_index@,
            final(self).owned@ == old(self).owned@,
            final(self).auctions@ == old(self).auctions@,
            final(self).buckets@ == old(self).buckets@,
            final(self).bids@ == old(self).bids@,
            final(self).key == old(self).key,
            final(self).something == old(self).something,
            final(self).events@ == old(self).events@,
            final(self).now == old(self).now,
            final(self).auctions_created == old(self).auctions_created,
            final(self).nonce == old(self).nonce,
    {
        self.currency.deposit(a, amount);
    }

    /// The event log so far.
    pub fn events(&self) -> (r: &Vec<Event>)
        ensures
            r@ == self.events@,
    {
        &self.events
    }
}

/// The genesis configuration: what the ledger starts from.
pub struct GenesisConfig {
    /// The founder account.
    pub key: u64,
}

impl Default for GenesisConfig {
    /// The default genesis names account zero as founder.
    fn default() -> (c: GenesisConfig)
        ensures
            c.key == 0,
    {
        GenesisConfig { key: 0 }
    }
}

impl GenesisConfig {
    /// Builds the initial ledger from this configuration.
    pub fn build(&self) -> (l: Ledger)
        ensures
            l.wf(),
            l.key == self.key,
            l.something is None,
            l.events@ == Seq::<Event>::empty(),
            l.now == 0,
            l.auctions_created == 0,
            l.nonce == 0,
            l.mogwais@ == Map::<u64, MogwaiStruct>::empty(),
            l.bios@ == Map::<u64, MogwaiBios>::empty(),
            l.owners@ == Map::<u64, u64>::empty(),
            l.all_index@ == Seq::<u64>::empty(),
            l.owned@ == Map::<u64, EnumIndex>::empty(),
            l.auctions@ == Map::<u64, Auction>::empty(),
            l.buckets@ == Map::<u64, Vec<u64>>::empty(),
            l.bids@ == Map::<u64, Vec<(u64, u64)>>::empty(),
            l.currency@ == Map::<u64, crate::currency::AccountBalance>::empty(),
    {
        Ledger::new(self.key)
    }
}

} // verus!
