use crate::address::address_of;
use crate::memory_usage::{add_saturating, measured, sat_add, MemoryUsage};
use crate::tracker::MemoryUsageTracker;
use crate::POINTER_BYTE_SIZE;
use vstd::layout::size_of;
use vstd::prelude::*;

verus! {

/// What a referent at `address` adds to a walk: the first time the walk meets the address the
/// referent is charged in full, and afterwards nothing. A referent whose address is unknown is
/// charged in full.
pub open spec fn measures_referent<T: MemoryUsage + ?Sized>(
    referent: &T,
    address: Option<usize>,
    seen: Set<usize>,
    extra: nat,
    after: Set<usize>,
) -> bool {
    match address {
        Some(a) => if seen.contains(a) {
            extra == 0 && after == seen
        } else {
            measured(referent, seen.insert(a), extra, after)
        },
        None => measured(referent, seen, extra, after),
    }
}

/// A reference of flat size `flat` counts it plus what its referent adds to the walk.
pub open spec fn measures_reference<T: MemoryUsage + ?Sized>(
    flat: nat,
    referent: &T,
    seen: Set<usize>,
    bytes: nat,
    after: Set<usize>,
) -> bool {
    exists|address: Option<usize>, extra: nat|
        #![trigger measures_referent(referent, address, seen, extra, after)]
        bytes == sat_add(flat, extra) && measures_referent(
            referent,
            address,
            seen,
            extra,
            after,
        )
}

/// Charges the referent at `address` to the walk, in full the first time the walk meets the
/// address, and not again.
pub fn size_of_referent<T: MemoryUsage + ?Sized, Tr: MemoryUsageTracker + ?Sized>(
    referent: &T,
    address: Option<usize>,
    tracker: &mut Tr,
) -> (r: usize)
    requires
        referent.fits(),
    ensures
        measures_referent(referent, address, old(tracker).charged(), r as nat, final(tracker).charged()),
        old(tracker).charged().subset_of(final(tracker).charged()),
{
    match address {
        Some(a) => if tracker.track(a) {
            referent.size_of_val(tracker)
        } else {
            assert(old(tracker).charged().insert(a) =~= old(tracker).charged());
            0
        },
        None => referent.size_of_val(tracker),
    }
}

/// Charges an address whose referent cannot be inspected: one pointer's worth of bytes the first
/// time the walk meets it, and nothing afterwards.
pub fn size_of_address<Tr: MemoryUsageTracker + ?Sized>(address: usize, tracker: &mut Tr) -> (r:
    usize)
    ensures
        r == (if old(tracker).charged().contains(address) {
            0
        } else {
            POINTER_BYTE_SIZE
        }),
        final(tracker).charged() == old(tracker).charged().insert(address),
{
    if tracker.track(address) {
        POINTER_BYTE_SIZE
    } else {
        0
    }
}

impl<T: MemoryUsage + ?Sized> MemoryUsage for &T {
    open spec fn flat(&self) -> nat {
        size_of::<Self>()
    }

    open spec fn measures(&self, seen: Set<usize>, bytes: nat, after: Set<usize>) -> bool {
        measures_reference(self.flat(), *self, seen, bytes, after)
    }

    open spec fn fits(&self) -> bool {
        (*self).fits()
    }

    fn size_of_val<Tr: MemoryUsageTracker + ?Sized>(&self, tracker: &mut Tr) -> (r: usize) {
        let referent: &T = *self;
        let address = address_of(referent);
        let extra = size_of_referent(referent, address, tracker);
        add_saturating(core::mem::size_of::<Self>(), extra)
    }
}

impl<T: MemoryUsage + ?Sized> MemoryUsage for &mut T {
    open spec fn flat(&self) -> nat {
        size_of::<Self>()
    }

    open spec fn measures(&self, seen: Set<usize>, bytes: nat, after: Set<usize>) -> bool {
        measures_reference(self.flat(), &**self, seen, bytes, after)
    }

    open spec fn fits(&self) -> bool {
        (**self).fits()
    }

    fn size_of_val<Tr: MemoryUsageTracker + ?Sized>(&self, tracker: &mut Tr) -> (r: usize) {
        let referent: &T = &**self;
        let address = address_of(referent);
        let extra = size_of_referent(referent, address, tracker);
        add_saturating(core::mem::size_of::<Self>(), extra)
    }
}

} // verus!
