use crate::memory_usage::MemoryUsage;
use crate::tracker::MemoryUsageTracker;
use core::marker::PhantomData;
use vstd::layout::size_of;
use vstd::prelude::*;

verus! {

/// A value with no parts of its own counts its flat size `flat` and charges no address.
pub open spec fn measures_flat(flat: nat, seen: Set<usize>, bytes: nat, after: Set<usize>) -> bool {
    bytes == flat && after == seen
}

// The empty tuple occupies no bytes and owns nothing: it counts 0.
impl MemoryUsage for () {
    open spec fn flat(&self) -> nat {
        size_of::<Self>()
    }

    open spec fn measures(&self, seen: Set<usize>, bytes: nat, after: Set<usize>) -> bool {
        measures_flat(0, seen, bytes, after)
    }

    open spec fn fits(&self) -> bool {
        true
    }

    fn size_of_val<Tr: MemoryUsageTracker + ?Sized>(&self, _tracker: &mut Tr) -> (r: usize) {
        broadcast use vstd::layout::layout_of_unit_tuple;

        0
    }
}

// A marker type counts 0, whatever it marks.
impl<T: ?Sized> MemoryUsage for PhantomData<T> {
    open spec fn flat(&self) -> nat {
        size_of::<Self>()
    }

    open spec fn measures(&self, seen: Set<usize>, bytes: nat, after: Set<usize>) -> bool {
        measures_flat(0, seen, bytes, after)
    }

    open spec fn fits(&self) -> bool {
        true
    }

    open spec fn counts_flat(&self) -> bool {
        false
    }

    fn size_of_val<Tr: MemoryUsageTracker + ?Sized>(&self, _tracker: &mut Tr) -> (r: usize) {
        0
    }
}

// Scalars own nothing beyond their bit pattern.
impl MemoryUsage for bool {
    open spec fn flat(&self) -> nat {
        size_of::<Self>()
    }

    open spec fn measures(&self, seen: Set<usize>, bytes: nat, after: Set<usize>) -> bool {
        measures_flat(self.flat(), seen, bytes, after)
    }

    open spec fn fits(&self) -> bool {
        true
    }

    fn size_of_val<Tr: MemoryUsageTracker + ?Sized>(&self, _tracker: &mut Tr) -> (r: usize) {
        core::mem::size_of::<Self>()
    }
}

impl MemoryUsage for char {
    open spec fn flat(&self) -> nat {
        size_of::<Self>()
    }

    open spec fn measures(&self, seen: Set<usize>, bytes: nat, after: Set<usize>) -> bool {
        measures_flat(self.flat(), seen, bytes, after)
    }

    open spec fn fits(&self) -> bool {
        true
    }

    fn size_of_val<Tr: MemoryUsageTracker + ?Sized>(&self, _tracker: &mut Tr) -> (r: usize) {
        core::mem::size_of::<Self>()
    }
}

impl MemoryUsage for i8 {
    open spec fn flat(&self) -> nat {
        size_of::<Self>()
    }

    open spec fn measures(&self, seen: Set<usize>, bytes: nat, after: Set<usize>) -> bool {
        measures_flat(self.flat(), seen, bytes, after)
    }

    open spec fn fits(&self) -> bool {
        true
    }

    fn size_of_val<Tr: MemoryUsageTracker + ?Sized>(&self, _tracker: &mut Tr) -> (r: usize) {
        core::mem::size_of::<Self>()
    }
}

impl MemoryUsage for i16 {
    open spec fn flat(&self) -> nat {
        size_of::<Self>()
    }

    open spec fn measures(&self, seen: Set<usize>, bytes: nat, after: Set<usize>) -> bool {
        measures_flat(self.flat(), seen, bytes, after)
    }

    open spec fn fits(&self) -> bool {
        true
    }

    fn size_of_val<Tr: MemoryUsageTracker + ?Sized>(&self, _tracker: &mut Tr) -> (r: usize) {
        core::mem::size_of::<Self>()
    }
}

impl MemoryUsage for i32 {
    open spec fn flat(&self) -> nat {
        size_of::<Self>()
    }

    open spec fn measures(&self, seen: Set<usize>, bytes: nat, after: Set<usize>) -> bool {
        measures_flat(self.flat(), seen, bytes, after)
    }

    open spec fn fits(&self) -> bool {
        true
    }

    fn size_of_val<Tr: MemoryUsageTracker + ?Sized>(&self, _tracker: &mut Tr) -> (r: usize) {
        core::mem::size_of::<Self>()
    }
}

impl MemoryUsage for i64 {
    open spec fn flat(&self) -> nat {
        size_of::<Self>()
    }

    open spec fn measures(&self, seen: Set<usize>, bytes: nat, after: Set<usize>) -> bool {
        measures_flat(self.flat(), seen, bytes, after)
    }

    open spec fn fits(&self) -> bool {
        true
    }

    fn size_of_val<Tr: MemoryUsageTracker + ?Sized>(&self, _tracker: &mut Tr) -> (r: usize) {
        core::mem::size_of::<Self>()
    }
}

impl MemoryUsage for isize {
    open spec fn flat(&self) -> nat {
        size_of::<Self>()
    }

    open spec fn measures(&self, seen: Set<usize>, bytes: nat, after: Set<usize>) -> bool {
        measures_flat(self.flat(), seen, bytes, after)
    }

    open spec fn fits(&self) -> bool {
        true
    }

    fn size_of_val<Tr: MemoryUsageTracker + ?Sized>(&self, _tracker: &mut Tr) -> (r: usize) {
        core::mem::size_of::<Self>()
    }
}

impl MemoryUsage for u8 {
    open spec fn flat(&self) -> nat {
        size_of::<Self>()
    }

    open spec fn measures(&self, seen: Set<usize>, bytes: nat, after: Set<usize>) -> bool {
        measures_flat(self.flat(), seen, bytes, after)
    }

    open spec fn fits(&self) -> bool {
        true
    }

    fn size_of_val<Tr: MemoryUsageTracker + ?Sized>(&self, _tracker: &mut Tr) -> (r: usize) {
        core::mem::size_of::<Self>()
    }
}

impl MemoryUsage for u16 {
    open spec fn flat(&self) -> nat {
        size_of::<Self>()
    }

    open spec fn measures(&self, seen: Set<usize>, bytes: nat, after: Set<usize>) -> bool {
        measures_flat(self.flat(), seen, bytes, after)
    }

    open spec fn fits(&self) -> bool {
        true
    }

    fn size_of_val<Tr: MemoryUsageTracker + ?Sized>(&self, _tracker: &mut Tr) -> (r: usize) {
        core::mem::size_of::<Self>()
    }
}

impl MemoryUsage for u32 {
    open spec fn flat(&self) -> nat {
        size_of::<Self>()
    }

    open spec fn measures(&self, seen: Set<usize>, bytes: nat, after: Set<usize>) -> bool {
        measures_flat(self.flat(), seen, bytes, after)
    }

    open spec fn fits(&self) -> bool {
        true
    }

    fn size_of_val<Tr: MemoryUsageTracker + ?Sized>(&self, _tracker: &mut Tr) -> (r: usize) {
        core::mem::size_of::<Self>()
    }
}

impl MemoryUsage for u64 {
    open spec fn flat(&self) -> nat {
        size_of::<Self>()
    }

    open spec fn measures(&self, seen: Set<usize>, bytes: nat, after: Set<usize>) -> bool {
        measures_flat(self.flat(), seen, bytes, after)
    }

    open spec fn fits(&self) -> bool {
        true
    }

    fn size_of_val<Tr: MemoryUsageTracker + ?Sized>(&self, _tracker: &mut Tr) -> (r: usize) {
        core::mem::size_of::<Self>()
    }
}

impl MemoryUsage for usize {
    open spec fn flat(&self) -> nat {
        size_of::<Self>()
    }

    open spec fn measures(&self, seen: Set<usize>, bytes: nat, after: Set<usize>) -> bool {
        measures_flat(self.flat(), seen, bytes, after)
    }

    open spec fn fits(&self) -> bool {
        true
    }

    fn size_of_val<Tr: MemoryUsageTracker + ?Sized>(&self, _tracker: &mut Tr) -> (r: usize) {
        core::mem::size_of::<Self>()
    }
}

} // verus!
