use vstd::prelude::*;
use std::collections::HashSet;
use crate::ports::DisputeRepository;

verus! {

broadcast use vstd::std_specs::hash::group_hash_axioms;

/// The ids of disputed transactions, kept in memory in a hash set.
pub struct InMemoryDisputeRepo {
    disputed: HashSet<u32>,
}

impl InMemoryDisputeRepo {
    pub fn new() -> (r: Self)
        ensures
            r.disputed() == Set::<u32>::empty(),
    {
        InMemoryDisputeRepo { disputed: HashSet::new() }
    }
}

impl DisputeRepository for InMemoryDisputeRepo {
    closed spec fn disputed(&self) -> Set<u32> {
        self.disputed@
    }

    fn is_disputed(&self, tx_id: u32) -> (r: bool) {
        self.disputed.contains(&tx_id)
    }

    fn mark_disputed(&mut self, tx_id: u32) {
        self.disputed.insert(tx_id);
    }

    fn remove_dispute(&mut self, tx_id: u32) {
        self.disputed.remove(&tx_id);
    }
}

} // verus!
