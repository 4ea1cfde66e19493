//! The keyed store: a mapping from `u64` keys to records, with existence
//! checks, overwriting writes and removal.  It is the foundation every other
//! component keeps its records in, and is modelled in specifications as a
//! finite `Map<u64, V>`.

use vstd::prelude::*;
use std::collections::HashMap;

verus! {

broadcast use vstd::std_specs::hash::group_hash_axioms;

/// A keyed record store.  `self@` is the mathematical map it holds.
pub struct KeyedStore<V> {
    map: HashMap<u64, V>,
}

impl<V> View for KeyedStore<V> {
    type V = Map<u64, V>;

    closed spec fn view(&self) -> Map<u64, V> {
        self.map@
    }
}

impl<V> KeyedStore<V> {
    /// An empty store.
    pub fn new() -> (s: Self)
        ensures
            s@ == Map::<u64, V>::empty(),
    {
        KeyedStore { map: HashMap::new() }
    }

    /// Whether a record is stored under `k`.
    pub fn contains(&self, k: u64) -> (r: bool)
        ensures
            r == self@.contains_key(k),
    {
        self.map.contains_key(&k)
    }

    /// The record stored under `k`, if any.
    pub fn get(&self, k: u64) -> (r: Option<&V>)
        ensures
            match r {
                Some(v) => self@.contains_key(k) && *v == self@[k],
                None => !self@.contains_key(k),
            },
    {
        self.map.get(&k)
    }

    /// Stores `v` under `k`, overwriting any previous record.
    pub fn set(&mut self, k: u64, v: V)
        ensures
            final(self)@ == old(self)@.insert(k, v),
    {
        self.map.insert(k, v);
    }

    /// Removes the record under `k`, if any.
    pub fn remove(&mut self, k: u64)
        ensures
            final(self)@ == old(self)@.remove(k),
    {
        self.map.remove(&k);
    }

    /// Removes and returns the record under `k`.
    pub fn take(&mut self, k: u64) -> (r: Option<V>)
        ensures
            final(self)@ == old(self)@.remove(k),
            match r {
                Some(v) => old(self)@.contains_key(k) && v == old(self)@[k],
                None => !old(self)@.contains_key(k),
            },
    {
        self.map.remove(&k)
    }
}

} // verus!
