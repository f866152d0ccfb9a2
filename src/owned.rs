use crate::memory_usage::{
    add_saturating, all_fit, measures_owner, sat_add, size_of_items_full, size_of_owner,
    walks_full, MemoryUsage,
};
use crate::tracker::MemoryUsageTracker;
use std::path::PathBuf;
use std::sync::Arc;
use vstd::layout::size_of;
use vstd::prelude::*;

verus! {

// The pointee of a box lives on the heap, outside the box's flat size: it is counted in full.
impl<T: MemoryUsage + ?Sized> MemoryUsage for Box<T> {
    open spec fn flat(&self) -> nat {
        size_of::<Self>()
    }

    open spec fn measures(&self, seen: Set<usize>, bytes: nat, after: Set<usize>) -> bool {
        measures_owner(self.flat(), &**self, seen, bytes, after)
    }

    open spec fn fits(&self) -> bool {
        (**self).fits()
    }

    fn size_of_val<Tr: MemoryUsageTracker + ?Sized>(&self, tracker: &mut Tr) -> (r: usize) {
        size_of_owner(core::mem::size_of::<Self>(), &**self, tracker)
    }
}

// Each shared owner met in a walk counts its referent in full, as a box does.
impl<T: MemoryUsage + ?Sized> MemoryUsage for Arc<T> {
    open spec fn flat(&self) -> nat {
        size_of::<Self>()
    }

    open spec fn measures(&self, seen: Set<usize>, bytes: nat, after: Set<usize>) -> bool {
        measures_owner(self.flat(), &**self, seen, bytes, after)
    }

    open spec fn fits(&self) -> bool {
        (**self).fits()
    }

    fn size_of_val<Tr: MemoryUsageTracker + ?Sized>(&self, tracker: &mut Tr) -> (r: usize) {
        size_of_owner(core::mem::size_of::<Self>(), &**self, tracker)
    }
}

// The flat size of an `Option` already holds the tag and the payload's inline bytes; the payload
// is counted in full on top of it.
impl<T: MemoryUsage> MemoryUsage for Option<T> {
    open spec fn flat(&self) -> nat {
        size_of::<Self>()
    }

    open spec fn measures(&self, seen: Set<usize>, bytes: nat, after: Set<usize>) -> bool {
        match self {
            Some(value) => measures_owner(self.flat(), value, seen, bytes, after),
            None => bytes == self.flat() && after == seen,
        }
    }

    open spec fn fits(&self) -> bool {
        match self {
            Some(value) => value.fits(),
            None => true,
        }
    }

    fn size_of_val<Tr: MemoryUsageTracker + ?Sized>(&self, tracker: &mut Tr) -> (r: usize) {
        match self {
            Some(value) => size_of_owner(core::mem::size_of::<Self>(), value, tracker),
            None => core::mem::size_of::<Self>(),
        }
    }
}

impl<T: MemoryUsage, E: MemoryUsage> MemoryUsage for Result<T, E> {
    open spec fn flat(&self) -> nat {
        size_of::<Self>()
    }

    open spec fn measures(&self, seen: Set<usize>, bytes: nat, after: Set<usize>) -> bool {
        match self {
            Ok(value) => measures_owner(self.flat(), value, seen, bytes, after),
            Err(error) => measures_owner(self.flat(), error, seen, bytes, after),
        }
    }

    open spec fn fits(&self) -> bool {
        match self {
            Ok(value) => value.fits(),
            Err(error) => error.fits(),
        }
    }

    fn size_of_val<Tr: MemoryUsageTracker + ?Sized>(&self, tracker: &mut Tr) -> (r: usize) {
        match self {
            Ok(value) => size_of_owner(core::mem::size_of::<Self>(), value, tracker),
            Err(error) => size_of_owner(core::mem::size_of::<Self>(), error, tracker),
        }
    }
}

/// A growable sequence counts its header plus every element in full, in order: the elements live
/// in a buffer outside the header.
pub open spec fn measures_vec<T: MemoryUsage>(
    v: &Vec<T>,
    seen: Set<usize>,
    bytes: nat,
    after: Set<usize>,
) -> bool {
    exists|total: nat| #[trigger]
        walks_full(v@, seen, total, after) && bytes == sat_add(v.flat(), total)
}

impl<T: MemoryUsage> MemoryUsage for Vec<T> {
    open spec fn flat(&self) -> nat {
        size_of::<Self>()
    }

    open spec fn measures(&self, seen: Set<usize>, bytes: nat, after: Set<usize>) -> bool {
        measures_vec(self, seen, bytes, after)
    }

    open spec fn fits(&self) -> bool {
        all_fit(self@)
    }

    fn size_of_val<Tr: MemoryUsageTracker + ?Sized>(&self, tracker: &mut Tr) -> (r: usize) {
        let total = size_of_items_full(self.as_slice(), tracker);
        add_saturating(core::mem::size_of::<Self>(), total)
    }
}

#[verifier::external_type_specification]
#[verifier::external_body]
pub struct ExPathBuf(PathBuf);

/// Relies on `PathBuf::capacity`: the number of bytes the path's buffer can hold without
/// growing, which as for every allocation is at most `isize::MAX`.
#[verifier::external_body]
fn path_capacity(path: &PathBuf) -> (r: usize)
    ensures
        r <= isize::MAX,
{
    path.capacity()
}

/// An owned path buffer counts its flat size plus the capacity of its buffer in bytes, which the
/// allocator decides: at most `isize::MAX`.
impl MemoryUsage for PathBuf {
    open spec fn flat(&self) -> nat {
        size_of::<Self>()
    }

    open spec fn measures(&self, seen: Set<usize>, bytes: nat, after: Set<usize>) -> bool {
        exists|capacity: nat| #![trigger sat_add(self.flat(), capacity)]
            capacity <= isize::MAX && bytes == sat_add(self.flat(), capacity) && after == seen
    }

    open spec fn fits(&self) -> bool {
        true
    }

    fn size_of_val<Tr: MemoryUsageTracker + ?Sized>(&self, _tracker: &mut Tr) -> (r: usize) {
        let capacity = path_capacity(self);
        let r = add_saturating(core::mem::size_of::<Self>(), capacity);
        assert(r == sat_add(self.flat(), capacity as nat));
        r
    }
}

} // verus!
