use vstd::prelude::*;

use std::collections::HashMap;

use crate::policy::Policy;

verus! {

/// The policy store: one record per identifier, with upsert and point lookup.
pub struct SeguroStorage {
    policies: HashMap<u64, Policy>,
}

impl View for SeguroStorage {
    type V = Map<u64, Policy>;

    closed spec fn view(&self) -> Map<u64, Policy> {
        self.policies@
    }
}

impl SeguroStorage {
    /// An empty store.
    pub fn new() -> (r: SeguroStorage)
        ensures
            r@ == Map::<u64, Policy>::empty(),
    {
        SeguroStorage { policies: HashMap::new() }
    }

    /// Stores `policy` under `id`, replacing any record there.
    pub fn put(&mut self, id: u64, policy: Policy)
        ensures
            final(self)@ == old(self)@.insert(id, policy),
    {
        broadcast use vstd::std_specs::hash::group_hash_axioms;

        self.policies.insert(id, policy);
    }

    /// The record stored under `id`, if any.
    pub fn get(&self, id: u64) -> (r: Option<&Policy>)
        ensures
            match r {
                Some(p) => self@.contains_key(id) && *p == self@[id],
                None => !self@.contains_key(id),
            },
    {
        broadcast use vstd::std_specs::hash::group_hash_axioms;

        self.policies.get(&id)
    }

    /// Removes the record stored under `id` and hands it over, if any.
    pub fn take(&mut self, id: u64) -> (r: Option<Policy>)
        ensures
            final(self)@ == old(self)@.remove(id),
            match r {
                Some(p) => old(self)@.contains_key(id) && p == old(self)@[id],
                None => !old(self)@.contains_key(id),
            },
    {
        broadcast use vstd::std_specs::hash::group_hash_axioms;

        self.policies.remove(&id)
    }
}

} // verus!
