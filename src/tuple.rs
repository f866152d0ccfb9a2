use crate::memory_usage::{add_saturating, held_inline, measures_extra, sat_add, size_of_extra, MemoryUsage};
use crate::tracker::MemoryUsageTracker;
use vstd::layout::size_of;
use vstd::prelude::*;

verus! {

// A tuple's flat size already holds every slot's inline bytes and the padding between them: each
// slot adds only what it counts beyond its own flat size, walked in order.

impl<A: MemoryUsage, B: MemoryUsage> MemoryUsage for (A, B) {
    open spec fn flat(&self) -> nat {
        size_of::<Self>()
    }

    open spec fn measures(&self, seen: Set<usize>, bytes: nat, after: Set<usize>) -> bool {
        exists|m1: Set<usize>, e0: nat, e1: nat|
            #![trigger measures_extra(&self.0, seen, e0, m1), measures_extra(&self.1, m1, e1, after)]
            measures_extra(&self.0, seen, e0, m1)
                && measures_extra(&self.1, m1, e1, after)
                && bytes == sat_add(sat_add(self.flat(), e0), e1)
    }

    open spec fn fits(&self) -> bool {
        &&& self.0.fits() && held_inline(&self.0)
        &&& self.1.fits() && held_inline(&self.1)
    }

    fn size_of_val<Tr: MemoryUsageTracker + ?Sized>(&self, tracker: &mut Tr) -> (r: usize) {
        let mut r = core::mem::size_of::<Self>();
        let e0 = size_of_extra(&self.0, tracker);
        r = add_saturating(r, e0);
        let e1 = size_of_extra(&self.1, tracker);
        r = add_saturating(r, e1);
        r
    }
}

impl<A: MemoryUsage, B: MemoryUsage, C: MemoryUsage> MemoryUsage for (A, B, C) {
    open spec fn flat(&self) -> nat {
        size_of::<Self>()
    }

    open spec fn measures(&self, seen: Set<usize>, bytes: nat, after: Set<usize>) -> bool {
        exists|m1: Set<usize>, m2: Set<usize>, e0: nat, e1: nat, e2: nat|
            #![trigger measures_extra(&self.0, seen, e0, m1), measures_extra(&self.1, m1, e1, m2), measures_extra(&self.2, m2, e2, after)]
            measures_extra(&self.0, seen, e0, m1)
                && measures_extra(&self.1, m1, e1, m2)
                && measures_extra(&self.2, m2, e2, after)
                && bytes == sat_add(sat_add(sat_add(self.flat(), e0), e1), e2)
    }

    open spec fn fits(&self) -> bool {
        &&& self.0.fits() && held_inline(&self.0)
        &&& self.1.fits() && held_inline(&self.1)
        &&& self.2.fits() && held_inline(&self.2)
    }

    fn size_of_val<Tr: MemoryUsageTracker + ?Sized>(&self, tracker: &mut Tr) -> (r: usize) {
        let mut r = core::mem::size_of::<Self>();
        let e0 = size_of_extra(&self.0, tracker);
        r = add_saturating(r, e0);
        let e1 = size_of_extra(&self.1, tracker);
        r = add_saturating(r, e1);
        let e2 = size_of_extra(&self.2, tracker);
        r = add_saturating(r, e2);
        r
    }
}

impl<A: MemoryUsage, B: MemoryUsage, C: MemoryUsage, D: MemoryUsage> MemoryUsage for (A, B, C, D) {
    open spec fn flat(&self) -> nat {
        size_of::<Self>()
    }

    open spec fn measures(&self, seen: Set<usize>, bytes: nat, after: Set<usize>) -> bool {
        exists|m1: Set<usize>, m2: Set<usize>, m3: Set<usize>, e0: nat, e1: nat, e2: nat, e3: nat|
            #![trigger measures_extra(&self.0, seen, e0, m1), measures_extra(&self.1, m1, e1, m2), measures_extra(&self.2, m2, e2, m3), measures_extra(&self.3, m3, e3, after)]
            measures_extra(&self.0, seen, e0, m1)
                && measures_extra(&self.1, m1, e1, m2)
                && measures_extra(&self.2, m2, e2, m3)
                && measures_extra(&self.3, m3, e3, after)
                && bytes == sat_add(sat_add(sat_add(sat_add(self.flat(), e0), e1), e2), e3)
    }

    open spec fn fits(&self) -> bool {
        &&& self.0.fits() && held_inline(&self.0)
        &&& self.1.fits() && held_inline(&self.1)
        &&& self.2.fits() && held_inline(&self.2)
        &&& self.3.fits() && held_inline(&self.3)
    }

    fn size_of_val<Tr: MemoryUsageTracker + ?Sized>(&self, tracker: &mut Tr) -> (r: usize) {
        let mut r = core::mem::size_of::<Self>();
        let e0 = size_of_extra(&self.0, tracker);
        r = add_saturating(r, e0);
        let e1 = size_of_extra(&self.1, tracker);
        r = add_saturating(r, e1);
        let e2 = size_of_extra(&self.2, tracker);
        r = add_saturating(r, e2);
        let e3 = size_of_extra(&self.3, tracker);
        r = add_saturating(r, e3);
        r
    }
}

impl<A: MemoryUsage, B: MemoryUsage, C: MemoryUsage, D: MemoryUsage, E: MemoryUsage> MemoryUsage for (A, B, C, D, E) {
    open spec fn flat(&self) -> nat {
        size_of::<Self>()
    }

    open spec fn measures(&self, seen: Set<usize>, bytes: nat, after: Set<usize>) -> bool {
        exists|m1: Set<usize>, m2: Set<usize>, m3: Set<usize>, m4: Set<usize>, e0: nat, e1: nat, e2: nat, e3: nat, e4: nat|
            #![trigger measures_extra(&self.0, seen, e0, m1), measures_extra(&self.1, m1, e1, m2), measures_extra(&self.2, m2, e2, m3), measures_extra(&self.3, m3, e3, m4), measures_extra(&self.4, m4, e4, after)]
            measures_extra(&self.0, seen, e0, m1)
                && measures_extra(&self.1, m1, e1, m2)
                && measures_extra(&self.2, m2, e2, m3)
                && measures_extra(&self.3, m3, e3, m4)
                && measures_extra(&self.4, m4, e4, after)
                && bytes == sat_add(sat_add(sat_add(sat_add(sat_add(self.flat(), e0), e1), e2), e3), e4)
    }

    open spec fn fits(&self) -> bool {
        &&& self.0.fits() && held_inline(&self.0)
        &&& self.1.fits() && held_inline(&self.1)
        &&& self.2.fits() && held_inline(&self.2)
        &&& self.3.fits() && held_inline(&self.3)
        &&& self.4.fits() && held_inline(&self.4)
    }

    fn size_of_val<Tr: MemoryUsageTracker + ?Sized>(&self, tracker: &mut Tr) -> (r: usize) {
        let mut r = core::mem::size_of::<Self>();
        let e0 = size_of_extra(&self.0, tracker);
        r = add_saturating(r, e0);
        let e1 = size_of_extra(&self.1, tracker);
        r = add_saturating(r, e1);
        let e2 = size_of_extra(&self.2, tracker);
        r = add_saturating(r, e2);
        let e3 = size_of_extra(&self.3, tracker);
        r = add_saturating(r, e3);
        let e4 = size_of_extra(&self.4, tracker);
        r = add_saturating(r, e4);
        r
    }
}

impl<A: MemoryUsage, B: MemoryUsage, C: MemoryUsage, D: MemoryUsage, E: MemoryUsage, F: MemoryUsage> MemoryUsage for (A, B, C, D, E, F) {
    open spec fn flat(&self) -> nat {
        size_of::<Self>()
    }

    open spec fn measures(&self, seen: Set<usize>, bytes: nat, after: Set<usize>) -> bool {
        exists|m1: Set<usize>, m2: Set<usize>, m3: Set<usize>, m4: Set<usize>, m5: Set<usize>, e0: nat, e1: nat, e2: nat, e3: nat, e4: nat, e5: nat|
            #![trigger measures_extra(&self.0, seen, e0, m1), measures_extra(&self.1, m1, e1, m2), measures_extra(&self.2, m2, e2, m3), measures_extra(&self.3, m3, e3, m4), measures_extra(&self.4, m4, e4, m5), measures_extra(&self.5, m5, e5, after)]
            measures_extra(&self.0, seen, e0, m1)
                && measures_extra(&self.1, m1, e1, m2)
                && measures_extra(&self.2, m2, e2, m3)
                && measures_extra(&self.3, m3, e3, m4)
                && measures_extra(&self.4, m4, e4, m5)
                && measures_extra(&self.5, m5, e5, after)
                && bytes == sat_add(sat_add(sat_add(sat_add(sat_add(sat_add(self.flat(), e0), e1), e2), e3), e4), e5)
    }

    open spec fn fits(&self) -> bool {
        &&& self.0.fits() && held_inline(&self.0)
        &&& self.1.fits() && held_inline(&self.1)
        &&& self.2.fits() && held_inline(&self.2)
        &&& self.3.fits() && held_inline(&self.3)
        &&& self.4.fits() && held_inline(&self.4)
        &&& self.5.fits() && held_inline(&self.5)
    }

    fn size_of_val<Tr: MemoryUsageTracker + ?Sized>(&self, tracker: &mut Tr) -> (r: usize) {
        let mut r = core::mem::size_of::<Self>();
        let e0 = size_of_extra(&self.0, tracker);
        r = add_saturating(r, e0);
        let e1 = size_of_extra(&self.1, tracker);
        r = add_saturating(r, e1);
        let e2 = size_of_extra(&self.2, tracker);
        r = add_saturating(r, e2);
        let e3 = size_of_extra(&self.3, tracker);
        r = add_saturating(r, e3);
        let e4 = size_of_extra(&self.4, tracker);
        r = add_saturating(r, e4);
        let e5 = size_of_extra(&self.5, tracker);
        r = add_saturating(r, e5);
        r
    }
}

impl<A: MemoryUsage, B: MemoryUsage, C: MemoryUsage, D: MemoryUsage, E: MemoryUsage, F: MemoryUsage, G: MemoryUsage> MemoryUsage for (A, B, C, D, E, F, G) {
    open spec fn flat(&self) -> nat {
        size_of::<Self>()
    }

    open spec fn measures(&self, seen: Set<usize>, bytes: nat, after: Set<usize>) -> bool {
        exists|m1: Set<usize>, m2: Set<usize>, m3: Set<usize>, m4: Set<usize>, m5: Set<usize>, m6: Set<usize>, e0: nat, e1: nat, e2: nat, e3: nat, e4: nat, e5: nat, e6: nat|
            #![trigger measures_extra(&self.0, seen, e0, m1), measures_extra(&self.1, m1, e1, m2), measures_extra(&self.2, m2, e2, m3), measures_extra(&self.3, m3, e3, m4), measures_extra(&self.4, m4, e4, m5), measures_extra(&self.5, m5, e5, m6), measures_extra(&self.6, m6, e6, after)]
            measures_extra(&self.0, seen, e0, m1)
                && measures_extra(&self.1, m1, e1, m2)
                && measures_extra(&self.2, m2, e2, m3)
                && measures_extra(&self.3, m3, e3, m4)
                && measures_extra(&self.4, m4, e4, m5)
                && measures_extra(&self.5, m5, e5, m6)
                && measures_extra(&self.6, m6, e6, after)
                && bytes == sat_add(sat_add(sat_add(sat_add(sat_add(sat_add(sat_add(self.flat(), e0), e1), e2), e3), e4), e5), e6)
    }

    open spec fn fits(&self) -> bool {
        &&& self.0.fits() && held_inline(&self.0)
        &&& self.1.fits() && held_inline(&self.1)
        &&& self.2.fits() && held_inline(&self.2)
        &&& self.3.fits() && held_inline(&self.3)
        &&& self.4.fits() && held_inline(&self.4)
        &&& self.5.fits() && held_inline(&self.5)
        &&& self.6.fits() && held_inline(&self.6)
    }

    fn size_of_val<Tr: MemoryUsageTracker + ?Sized>(&self, tracker: &mut Tr) -> (r: usize) {
        let mut r = core::mem::size_of::<Self>();
        let e0 = size_of_extra(&self.0, tracker);
        r = add_saturating(r, e0);
        let e1 = size_of_extra(&self.1, tracker);
        r = add_saturating(r, e1);
        let e2 = size_of_extra(&self.2, tracker);
        r = add_saturating(r, e2);
        let e3 = size_of_extra(&self.3, tracker);
        r = add_saturating(r, e3);
        let e4 = size_of_extra(&self.4, tracker);
        r = add_saturating(r, e4);
        let e5 = size_of_extra(&self.5, tracker);
        r = add_saturating(r, e5);
        let e6 = size_of_extra(&self.6, tracker);
        r = add_saturating(r, e6);
        r
    }
}

impl<A: MemoryUsage, B: MemoryUsage, C: MemoryUsage, D: MemoryUsage, E: MemoryUsage, F: MemoryUsage, G: MemoryUsage, H: MemoryUsage> MemoryUsage for (A, B, C, D, E, F, G, H) {
    open spec fn flat(&self) -> nat {
        size_of::<Self>()
    }

    open spec fn measures(&self, seen: Set<usize>, bytes: nat, after: Set<usize>) -> bool {
        exists|m1: Set<usize>, m2: Set<usize>, m3: Set<usize>, m4: Set<usize>, m5: Set<usize>, m6: Set<usize>, m7: Set<usize>, e0: nat, e1: nat, e2: nat, e3: nat, e4: nat, e5: nat, e6: nat, e7: nat|
            #![trigger measures_extra(&self.0, seen, e0, m1), measures_extra(&self.1, m1, e1, m2), measures_extra(&self.2, m2, e2, m3), measures_extra(&self.3, m3, e3, m4), measures_extra(&self.4, m4, e4, m5), measures_extra(&self.5, m5, e5, m6), measures_extra(&self.6, m6, e6, m7), measures_extra(&self.7, m7, e7, after)]
            measures_extra(&self.0, seen, e0, m1)
                && measures_extra(&self.1, m1, e1, m2)
                && measures_extra(&self.2, m2, e2, m3)
                && measures_extra(&self.3, m3, e3, m4)
                && measures_extra(&self.4, m4, e4, m5)
                && measures_extra(&self.5, m5, e5, m6)
                && measures_extra(&self.6, m6, e6, m7)
                && measures_extra(&self.7, m7, e7, after)
                && bytes == sat_add(sat_add(sat_add(sat_add(sat_add(sat_add(sat_add(sat_add(self.flat(), e0), e1), e2), e3), e4), e5), e6), e7)
    }

    open spec fn fits(&self) -> bool {
        &&& self.0.fits() && held_inline(&self.0)
        &&& self.1.fits() && held_inline(&self.1)
        &&& self.2.fits() && held_inline(&self.2)
        &&& self.3.fits() && held_inline(&self.3)
        &&& self.4.fits() && held_inline(&self.4)
        &&& self.5.fits() && held_inline(&self.5)
        &&& self.6.fits() && held_inline(&self.6)
        &&& self.7.fits() && held_inline(&self.7)
    }

    fn size_of_val<Tr: MemoryUsageTracker + ?Sized>(&self, tracker: &mut Tr) -> (r: usize) {
        let mut r = core::mem::size_of::<Self>();
        let e0 = size_of_extra(&self.0, tracker);
        r = add_saturating(r, e0);
        let e1 = size_of_extra(&self.1, tracker);
        r = add_saturating(r, e1);
        let e2 = size_of_extra(&self.2, tracker);
        r = add_saturating(r, e2);
        let e3 = size_of_extra(&self.3, tracker);
        r = add_saturating(r, e3);
        let e4 = size_of_extra(&self.4, tracker);
        r = add_saturating(r, e4);
        let e5 = size_of_extra(&self.5, tracker);
        r = add_saturating(r, e5);
        let e6 = size_of_extra(&self.6, tracker);
        r = add_saturating(r, e6);
        let e7 = size_of_extra(&self.7, tracker);
        r = add_saturating(r, e7);
        r
    }
}

impl<A: MemoryUsage, B: MemoryUsage, C: MemoryUsage, D: MemoryUsage, E: MemoryUsage, F: MemoryUsage, G: MemoryUsage, H: MemoryUsage, I: MemoryUsage> MemoryUsage for (A, B, C, D, E, F, G, H, I) {
    open spec fn flat(&self) -> nat {
        size_of::<Self>()
    }

    open spec fn measures(&self, seen: Set<usize>, bytes: nat, after: Set<usize>) -> bool {
        exists|m1: Set<usize>, m2: Set<usize>, m3: Set<usize>, m4: Set<usize>, m5: Set<usize>, m6: Set<usize>, m7: Set<usize>, m8: Set<usize>, e0: nat, e1: nat, e2: nat, e3: nat, e4: nat, e5: nat, e6: nat, e7: nat, e8: nat|
            #![trigger measures_extra(&self.0, seen, e0, m1), measures_extra(&self.1, m1, e1, m2), measures_extra(&self.2, m2, e2, m3), measures_extra(&self.3, m3, e3, m4), measures_extra(&self.4, m4, e4, m5), measures_extra(&self.5, m5, e5, m6), measures_extra(&self.6, m6, e6, m7), measures_extra(&self.7, m7, e7, m8), measures_extra(&self.8, m8, e8, after)]
            measures_extra(&self.0, seen, e0, m1)
                && measures_extra(&self.1, m1, e1, m2)
                && measures_extra(&self.2, m2, e2, m3)
                && measures_extra(&self.3, m3, e3, m4)
                && measures_extra(&self.4, m4, e4, m5)
                && measures_extra(&self.5, m5, e5, m6)
                && measures_extra(&self.6, m6, e6, m7)
                && measures_extra(&self.7, m7, e7, m8)
                && measures_extra(&self.8, m8, e8, after)
                && bytes == sat_add(sat_add(sat_add(sat_add(sat_add(sat_add(sat_add(sat_add(sat_add(self.flat(), e0), e1), e2), e3), e4), e5), e6), e7), e8)
    }

    open spec fn fits(&self) -> bool {
        &&& self.0.fits() && held_inline(&self.0)
        &&& self.1.fits() && held_inline(&self.1)
        &&& self.2.fits() && held_inline(&self.2)
        &&& self.3.fits() && held_inline(&self.3)
        &&& self.4.fits() && held_inline(&self.4)
        &&& self.5.fits() && held_inline(&self.5)
        &&& self.6.fits() && held_inline(&self.6)
        &&& self.7.fits() && held_inline(&self.7)
        &&& self.8.fits() && held_inline(&self.8)
    }

    fn size_of_val<Tr: MemoryUsageTracker + ?Sized>(&self, tracker: &mut Tr) -> (r: usize) {
        let mut r = core::mem::size_of::<Self>();
        let e0 = size_of_extra(&self.0, tracker);
        r = add_saturating(r, e0);
        let e1 = size_of_extra(&self.1, tracker);
        r = add_saturating(r, e1);
        let e2 = size_of_extra(&self.2, tracker);
        r = add_saturating(r, e2);
        let e3 = size_of_extra(&self.3, tracker);
        r = add_saturating(r, e3);
        let e4 = size_of_extra(&self.4, tracker);
        r = add_saturating(r, e4);
        let e5 = size_of_extra(&self.5, tracker);
        r = add_saturating(r, e5);
        let e6 = size_of_extra(&self.6, tracker);
        r = add_saturating(r, e6);
        let e7 = size_of_extra(&self.7, tracker);
        r = add_saturating(r, e7);
        let e8 = size_of_extra(&self.8, tracker);
        r = add_saturating(r, e8);
        r
    }
}

impl<A: MemoryUsage, B: MemoryUsage, C: MemoryUsage, D: MemoryUsage, E: MemoryUsage, F: MemoryUsage, G: MemoryUsage, H: MemoryUsage, I: MemoryUsage, J: MemoryUsage> MemoryUsage for (A, B, C, D, E, F, G, H, I, J) {
    open spec fn flat(&self) -> nat {
        size_of::<Self>()
    }

    open spec fn measures(&self, seen: Set<usize>, bytes: nat, after: Set<usize>) -> bool {
        exists|m1: Set<usize>, m2: Set<usize>, m3: Set<usize>, m4: Set<usize>, m5: Set<usize>, m6: Set<usize>, m7: Set<usize>, m8: Set<usize>, m9: Set<usize>, e0: nat, e1: nat, e2: nat, e3: nat, e4: nat, e5: nat, e6: nat, e7: nat, e8: nat, e9: nat|
            #![trigger measures_extra(&self.0, seen, e0, m1), measures_extra(&self.1, m1, e1, m2), measures_extra(&self.2, m2, e2, m3), measures_extra(&self.3, m3, e3, m4), measures_extra(&self.4, m4, e4, m5), measures_extra(&self.5, m5, e5, m6), measures_extra(&self.6, m6, e6, m7), measures_extra(&self.7, m7, e7, m8), measures_extra(&self.8, m8, e8, m9), measures_extra(&self.9, m9, e9, after)]
            measures_extra(&self.0, seen, e0, m1)
                && measures_extra(&self.1, m1, e1, m2)
                && measures_extra(&self.2, m2, e2, m3)
                && measures_extra(&self.3, m3, e3, m4)
                && measures_extra(&self.4, m4, e4, m5)
                && measures_extra(&self.5, m5, e5, m6)
                && measures_extra(&self.6, m6, e6, m7)
                && measures_extra(&self.7, m7, e7, m8)
                && measures_extra(&self.8, m8, e8, m9)
                && measures_extra(&self.9, m9, e9, after)
                && bytes == sat_add(sat_add(sat_add(sat_add(sat_add(sat_add(sat_add(sat_add(sat_add(sat_add(self.flat(), e0), e1), e2), e3), e4), e5), e6), e7), e8), e9)
    }

    open spec fn fits(&self) -> bool {
        &&& self.0.fits() && held_inline(&self.0)
        &&& self.1.fits() && held_inline(&self.1)
        &&& self.2.fits() && held_inline(&self.2)
        &&& self.3.fits() && held_inline(&self.3)
        &&& self.4.fits() && held_inline(&self.4)
        &&& self.5.fits() && held_inline(&self.5)
        &&& self.6.fits() && held_inline(&self.6)
        &&& self.7.fits() && held_inline(&self.7)
        &&& self.8.fits() && held_inline(&self.8)
        &&& self.9.fits() && held_inline(&self.9)
    }

    fn size_of_val<Tr: MemoryUsageTracker + ?Sized>(&self, tracker: &mut Tr) -> (r: usize) {
        let mut r = core::mem::size_of::<Self>();
        let e0 = size_of_extra(&self.0, tracker);
        r = add_saturating(r, e0);
        let e1 = size_of_extra(&self.1, tracker);
        r = add_saturating(r, e1);
        let e2 = size_of_extra(&self.2, tracker);
        r = add_saturating(r, e2);
        let e3 = size_of_extra(&self.3, tracker);
        r = add_saturating(r, e3);
        let e4 = size_of_extra(&self.4, tracker);
        r = add_saturating(r, e4);
        let e5 = size_of_extra(&self.5, tracker);
        r = add_saturating(r, e5);
        let e6 = size_of_extra(&self.6, tracker);
        r = add_saturating(r, e6);
        let e7 = size_of_extra(&self.7, tracker);
        r = add_saturating(r, e7);
        let e8 = size_of_extra(&self.8, tracker);
        r = add_saturating(r, e8);
        let e9 = size_of_extra(&self.9, tracker);
        r = add_saturating(r, e9);
        r
    }
}

impl<A: MemoryUsage, B: MemoryUsage, C: MemoryUsage, D: MemoryUsage, E: MemoryUsage, F: MemoryUsage, G: MemoryUsage, H: MemoryUsage, I: MemoryUsage, J: MemoryUsage, K: MemoryUsage> MemoryUsage for (A, B, C, D, E, F, G, H, I, J, K) {
    open spec fn flat(&self) -> nat {
        size_of::<Self>()
    }

    open spec fn measures(&self, seen: Set<usize>, bytes: nat, after: Set<usize>) -> bool {
        exists|m1: Set<usize>, m2: Set<usize>, m3: Set<usize>, m4: Set<usize>, m5: Set<usize>, m6: Set<usize>, m7: Set<usize>, m8: Set<usize>, m9: Set<usize>, m10: Set<usize>, e0: nat, e1: nat, e2: nat, e3: nat, e4: nat, e5: nat, e6: nat, e7: nat, e8: nat, e9: nat, e10: nat|
            #![trigger measures_extra(&self.0, seen, e0, m1), measures_extra(&self.1, m1, e1, m2), measures_extra(&self.2, m2, e2, m3), measures_extra(&self.3, m3, e3, m4), measures_extra(&self.4, m4, e4, m5), measures_extra(&self.5, m5, e5, m6), measures_extra(&self.6, m6, e6, m7), measures_extra(&self.7, m7, e7, m8), measures_extra(&self.8, m8, e8, m9), measures_extra(&self.9, m9, e9, m10), measures_extra(&self.10, m10, e10, after)]
            measures_extra(&self.0, seen, e0, m1)
                && measures_extra(&self.1, m1, e1, m2)
                && measures_extra(&self.2, m2, e2, m3)
                && measures_extra(&self.3, m3, e3, m4)
                && measures_extra(&self.4, m4, e4, m5)
                && measures_extra(&self.5, m5, e5, m6)
                && measures_extra(&self.6, m6, e6, m7)
                && measures_extra(&self.7, m7, e7, m8)
                && measures_extra(&self.8, m8, e8, m9)
                && measures_extra(&self.9, m9, e9, m10)
                && measures_extra(&self.10, m10, e10, after)
                && bytes == sat_add(sat_add(sat_add(sat_add(sat_add(sat_add(sat_add(sat_add(sat_add(sat_add(sat_add(self.flat(), e0), e1), e2), e3), e4), e5), e6), e7), e8), e9), e10)
    }

    open spec fn fits(&self) -> bool {
        &&& self.0.fits() && held_inline(&self.0)
        &&& self.1.fits() && held_inline(&self.1)
        &&& self.2.fits() && held_inline(&self.2)
        &&& self.3.fits() && held_inline(&self.3)
        &&& self.4.fits() && held_inline(&self.4)
        &&& self.5.fits() && held_inline(&self.5)
        &&& self.6.fits() && held_inline(&self.6)
        &&& self.7.fits() && held_inline(&self.7)
        &&& self.8.fits() && held_inline(&self.8)
        &&& self.9.fits() && held_inline(&self.9)
        &&& self.10.fits() && held_inline(&self.10)
    }

    fn size_of_val<Tr: MemoryUsageTracker + ?Sized>(&self, tracker: &mut Tr) -> (r: usize) {
        let mut r = core::mem::size_of::<Self>();
        let e0 = size_of_extra(&self.0, tracker);
        r = add_saturating(r, e0);
        let e1 = size_of_extra(&self.1, tracker);
        r = add_saturating(r, e1);
        let e2 = size_of_extra(&self.2, tracker);
        r = add_saturating(r, e2);
        let e3 = size_of_extra(&self.3, tracker);
        r = add_saturating(r, e3);
        let e4 = size_of_extra(&self.4, tracker);
        r = add_saturating(r, e4);
        let e5 = size_of_extra(&self.5, tracker);
        r = add_saturating(r, e5);
        let e6 = size_of_extra(&self.6, tracker);
        r = add_saturating(r, e6);
        let e7 = size_of_extra(&self.7, tracker);
        r = add_saturating(r, e7);
        let e8 = size_of_extra(&self.8, tracker);
        r = add_saturating(r, e8);
        let e9 = size_of_extra(&self.9, tracker);
        r = add_saturating(r, e9);
        let e10 = size_of_extra(&self.10, tracker);
        r = add_saturating(r, e10);
        r
    }
}

impl<A: MemoryUsage, B: MemoryUsage, C: MemoryUsage, D: MemoryUsage, E: MemoryUsage, F: MemoryUsage, G: MemoryUsage, H: MemoryUsage, I: MemoryUsage, J: MemoryUsage, K: MemoryUsage, L: MemoryUsage> MemoryUsage for (A, B, C, D, E, F, G, H, I, J, K, L) {
    open spec fn flat(&self) -> nat {
        size_of::<Self>()
    }

    open spec fn measures(&self, seen: Set<usize>, bytes: nat, after: Set<usize>) -> bool {
        exists|m1: Set<usize>, m2: Set<usize>, m3: Set<usize>, m4: Set<usize>, m5: Set<usize>, m6: Set<usize>, m7: Set<usize>, m8: Set<usize>, m9: Set<usize>, m10: Set<usize>, m11: Set<usize>, e0: nat, e1: nat, e2: nat, e3: nat, e4: nat, e5: nat, e6: nat, e7: nat, e8: nat, e9: nat, e10: nat, e11: nat|
            #![trigger measures_extra(&self.0, seen, e0, m1), measures_extra(&self.1, m1, e1, m2), measures_extra(&self.2, m2, e2, m3), measures_extra(&self.3, m3, e3, m4), measures_extra(&self.4, m4, e4, m5), measures_extra(&self.5, m5, e5, m6), measures_extra(&self.6, m6, e6, m7), measures_extra(&self.7, m7, e7, m8), measures_extra(&self.8, m8, e8, m9), measures_extra(&self.9, m9, e9, m10), measures_extra(&self.10, m10, e10, m11), measures_extra(&self.11, m11, e11, after)]
            measures_extra(&self.0, seen, e0, m1)
                && measures_extra(&self.1, m1, e1, m2)
                && measures_extra(&self.2, m2, e2, m3)
                && measures_extra(&self.3, m3, e3, m4)
                && measures_extra(&self.4, m4, e4, m5)
                && measures_extra(&self.5, m5, e5, m6)
                && measures_extra(&self.6, m6, e6, m7)
                && measures_extra(&self.7, m7, e7, m8)
                && measures_extra(&self.8, m8, e8, m9)
                && measures_extra(&self.9, m9, e9, m10)
                && measures_extra(&self.10, m10, e10, m11)
                && measures_extra(&self.11, m11, e11, after)
                && bytes == sat_add(sat_add(sat_add(sat_add(sat_add(sat_add(sat_add(sat_add(sat_add(sat_add(sat_add(sat_add(self.flat(), e0), e1), e2), e3), e4), e5), e6), e7), e8), e9), e10), e11)
    }

    open spec fn fits(&self) -> bool {
        &&& self.0.fits() && held_inline(&self.0)
        &&& self.1.fits() && held_inline(&self.1)
        &&& self.2.fits() && held_inline(&self.2)
        &&& self.3.fits() && held_inline(&self.3)
        &&& self.4.fits() && held_inline(&self.4)
        &&& self.5.fits() && held_inline(&self.5)
        &&& self.6.fits() && held_inline(&self.6)
        &&& self.7.fits() && held_inline(&self.7)
        &&& self.8.fits() && held_inline(&self.8)
        &&& self.9.fits() && held_inline(&self.9)
        &&& self.10.fits() && held_inline(&self.10)
        &&& self.11.fits() && held_inline(&self.11)
    }

    fn size_of_val<Tr: MemoryUsageTracker + ?Sized>(&self, tracker: &mut Tr) -> (r: usize) {
        let mut r = core::mem::size_of::<Self>();
        let e0 = size_of_extra(&self.0, tracker);
        r = add_saturating(r, e0);
        let e1 = size_of_extra(&self.1, tracker);
        r = add_saturating(r, e1);
        let e2 = size_of_extra(&self.2, tracker);
        r = add_saturating(r, e2);
        let e3 = size_of_extra(&self.3, tracker);
        r = add_saturating(r, e3);
        let e4 = size_of_extra(&self.4, tracker);
        r = add_saturating(r, e4);
        let e5 = size_of_extra(&self.5, tracker);
        r = add_saturating(r, e5);
        let e6 = size_of_extra(&self.6, tracker);
        r = add_saturating(r, e6);
        let e7 = size_of_extra(&self.7, tracker);
        r = add_saturating(r, e7);
        let e8 = size_of_extra(&self.8, tracker);
        r = add_saturating(r, e8);
        let e9 = size_of_extra(&self.9, tracker);
        r = add_saturating(r, e9);
        let e10 = size_of_extra(&self.10, tracker);
        r = add_saturating(r, e10);
        let e11 = size_of_extra(&self.11, tracker);
        r = add_saturating(r, e11);
        r
    }
}

} // verus!
