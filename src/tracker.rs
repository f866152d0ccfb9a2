use std::collections::{BTreeSet, HashSet};
use vstd::prelude::*;

verus! {

/// Remembers the addresses already charged during one walk over a value.
pub trait MemoryUsageTracker {
    /// The addresses charged so far.
    spec fn charged(&self) -> Set<usize>;

    /// Charges `address`: returns true exactly when it had not been charged before.
    fn track(&mut self, address: usize) -> (newly: bool)
        ensures
            newly == !old(self).charged().contains(address),
            final(self).charged() == old(self).charged().insert(address),
    ;
}

impl MemoryUsageTracker for BTreeSet<usize> {
    open spec fn charged(&self) -> Set<usize> {
        self@
    }

    fn track(&mut self, address: usize) -> (newly: bool) {
        broadcast use vstd::std_specs::btree::group_btree_axioms;
        self.insert(address)
    }
}

} // verus!

verus! {

impl MemoryUsageTracker for HashSet<usize> {
    open spec fn charged(&self) -> Set<usize> {
        self@
    }

    fn track(&mut self, address: usize) -> (newly: bool) {
        broadcast use vstd::std_specs::hash::group_hash_axioms;
        self.insert(address)
    }
}

} // verus!
