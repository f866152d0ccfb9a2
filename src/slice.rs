use crate::memory_usage::{
    add_saturating, all_fit, all_inline, sat_add, size_of_items_extra, walks_extra, MemoryUsage,
};
use crate::primitive::measures_flat;
use crate::tracker::MemoryUsageTracker;
use vstd::layout::size_of;
use vstd::prelude::*;

verus! {

/// A run of inline items counts `flat`, its flat size, which already holds each item's own bytes,
/// plus what the items count beyond their flat sizes, walked in order.
pub open spec fn measures_inline_items<T: MemoryUsage>(
    flat: nat,
    items: Seq<T>,
    seen: Set<usize>,
    bytes: nat,
    after: Set<usize>,
) -> bool {
    exists|extra: nat| #[trigger]
        walks_extra(items, seen, extra, after) && bytes == sat_add(flat, extra)
}

impl<T: MemoryUsage> MemoryUsage for [T] {
    open spec fn measures(&self, seen: Set<usize>, bytes: nat, after: Set<usize>) -> bool {
        measures_inline_items(self.flat(), self@, seen, bytes, after)
    }

    open spec fn fits(&self) -> bool {
        all_fit(self@) && all_inline(self@)
    }

    fn size_of_val<Tr: MemoryUsageTracker + ?Sized>(&self, tracker: &mut Tr) -> (r: usize) {
        let extra = size_of_items_extra(self, tracker);
        add_saturating(core::mem::size_of_val(self), extra)
    }
}

impl<T: MemoryUsage, const N: usize> MemoryUsage for [T; N] {
    open spec fn flat(&self) -> nat {
        size_of::<Self>()
    }

    open spec fn measures(&self, seen: Set<usize>, bytes: nat, after: Set<usize>) -> bool {
        measures_inline_items(self.flat(), self@, seen, bytes, after)
    }

    open spec fn fits(&self) -> bool {
        all_fit(self@) && all_inline(self@)
    }

    fn size_of_val<Tr: MemoryUsageTracker + ?Sized>(&self, tracker: &mut Tr) -> (r: usize) {
        let extra = size_of_items_extra(self.as_slice(), tracker);
        add_saturating(core::mem::size_of::<Self>(), extra)
    }
}

// Text is a run of bytes, which own nothing.
impl MemoryUsage for str {
    open spec fn measures(&self, seen: Set<usize>, bytes: nat, after: Set<usize>) -> bool {
        measures_flat(self.flat(), seen, bytes, after)
    }

    open spec fn fits(&self) -> bool {
        true
    }

    fn size_of_val<Tr: MemoryUsageTracker + ?Sized>(&self, _tracker: &mut Tr) -> (r: usize) {
        core::mem::size_of_val(self)
    }
}

/// Relies on `String::capacity`: the number of bytes the string's buffer can hold without
/// growing, which is at least its length and, as for every allocation, at most `isize::MAX`.
#[verifier::external_body]
fn string_capacity(s: &String) -> (r: usize)
    ensures
        s@.len() <= r,
        r <= isize::MAX,
{
    s.capacity()
}

/// An owned text buffer counts its flat size plus the capacity of its buffer in bytes, which the
/// allocator decides: at least the length of the text and at most `isize::MAX`.
impl MemoryUsage for String {
    open spec fn flat(&self) -> nat {
        size_of::<Self>()
    }

    open spec fn measures(&self, seen: Set<usize>, bytes: nat, after: Set<usize>) -> bool {
        exists|capacity: nat| #![trigger sat_add(self.flat(), capacity)]
            self@.len() <= capacity <= isize::MAX && bytes == sat_add(self.flat(), capacity)
                && after == seen
    }

    open spec fn fits(&self) -> bool {
        true
    }

    fn size_of_val<Tr: MemoryUsageTracker + ?Sized>(&self, _tracker: &mut Tr) -> (r: usize) {
        let capacity = string_capacity(self);
        let r = add_saturating(core::mem::size_of::<Self>(), capacity);
        assert(r == sat_add(self.flat(), capacity as nat));
        r
    }
}

} // verus!
