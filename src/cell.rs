use crate::address::address_of;
use crate::memory_usage::MemoryUsage;
use crate::ptr::size_of_address;
use crate::tracker::MemoryUsageTracker;
use crate::POINTER_BYTE_SIZE;
use core::cell::UnsafeCell;
use vstd::prelude::*;

verus! {

#[verifier::external_type_specification]
#[verifier::external_body]
#[verifier::reject_recursive_types(T)]
pub struct ExUnsafeCell<T: ?Sized>(UnsafeCell<T>);

/// A bare address, whose referent cannot be inspected, counts one pointer's worth of bytes the
/// first time the walk meets it and nothing afterwards. An address whose text cannot be read
/// counts a pointer's worth and charges nothing.
pub open spec fn measures_address(
    address: Option<usize>,
    seen: Set<usize>,
    bytes: nat,
    after: Set<usize>,
) -> bool {
    match address {
        Some(a) => bytes == (if seen.contains(a) {
            0
        } else {
            POINTER_BYTE_SIZE
        }) && after == seen.insert(a),
        None => bytes == POINTER_BYTE_SIZE && after == seen,
    }
}

/// Charges the bare address `address` when it is known.
fn size_of_bare_address<Tr: MemoryUsageTracker + ?Sized>(
    address: Option<usize>,
    tracker: &mut Tr,
) -> (r: usize)
    ensures
        measures_address(address, old(tracker).charged(), r as nat, final(tracker).charged()),
{
    match address {
        Some(a) => size_of_address(a, tracker),
        None => POINTER_BYTE_SIZE,
    }
}

// A cell's contents cannot be read safely while others may write them: the cell is charged as
// the bare address of its contents, which is the cell's own address.
impl<T: ?Sized> MemoryUsage for UnsafeCell<T> {
    open spec fn measures(&self, seen: Set<usize>, bytes: nat, after: Set<usize>) -> bool {
        exists|address: Option<usize>| #[trigger] measures_address(address, seen, bytes, after)
    }

    open spec fn fits(&self) -> bool {
        true
    }

    open spec fn counts_flat(&self) -> bool {
        false
    }

    fn size_of_val<Tr: MemoryUsageTracker + ?Sized>(&self, tracker: &mut Tr) -> (r: usize) {
        let address = address_of(self);
        size_of_bare_address(address, tracker)
    }
}

} // verus!
