//! Measures the memory footprint of a value: its own bytes plus everything it owns, with storage
//! reached through several references counted once.
use memory_usage::measured;
use std::collections::BTreeSet;
use vstd::prelude::*;

pub mod address;
pub mod cell;
pub mod collection;
pub mod derive;
pub mod laws;
pub mod memory_usage;
pub mod owned;
pub mod primitive;
pub mod ptr;
pub mod slice;
pub mod text;
pub mod tracker;
pub mod tuple;

pub use address::parse_address;
pub use derive::{
    derive_memory_usage, derive_memory_usage_for_enum, derive_memory_usage_for_struct, Data, Fields,
    Generics, ShapeError, TypeShape, Variant,
};
pub use memory_usage::{
    add_saturating, size_of_extra, size_of_items_extra, size_of_items_full, size_of_owner,
    MemoryUsage,
};
pub use ptr::{size_of_address, size_of_referent};
pub use text::{decimal_text, join_fold};
pub use tracker::MemoryUsageTracker;

verus! {

/// Bytes in a pointer to a sized value on the target.
pub const POINTER_BYTE_SIZE: usize = (usize::BITS / 8) as usize;

/// Measures `value` in one walk with a fresh tracker.
pub fn size_of_val<T: MemoryUsage + ?Sized>(value: &T) -> (r: usize)
    requires
        value.fits(),
    ensures
        exists|after: Set<usize>| measured(value, Set::empty(), r as nat, after),
{
    let mut tracker: BTreeSet<usize> = BTreeSet::new();
    let r = value.size_of_val(&mut tracker);
    assert(measured(value, Set::empty(), r as nat, tracker@));
    r
}

} // verus!
