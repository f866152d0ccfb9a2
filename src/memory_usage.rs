use crate::tracker::MemoryUsageTracker;
use vstd::layout::{size_of, spec_size_of_val};
use vstd::prelude::*;

verus! {

/// Bytes that `value` occupies inline, padding included, as the layout of its type gives them
/// (the number `core::mem::size_of_val` returns).
pub open spec fn flat_size<V: ?Sized>(value: &V) -> nat {
    spec_size_of_val::<V>(value)
}

/// `a + b`, or `usize::MAX` when the sum does not fit: a count that reaches `usize::MAX` stays
/// there.
pub open spec fn sat_add(a: nat, b: nat) -> nat {
    if a + b > usize::MAX {
        usize::MAX as nat
    } else {
        a + b
    }
}

/// What a part that counted `bytes` adds beyond its flat size `flat` to a value that holds it
/// inline; a count that reached `usize::MAX` passes on as `usize::MAX`.
pub open spec fn extra_of(bytes: nat, flat: nat) -> nat {
    if bytes >= usize::MAX {
        usize::MAX as nat
    } else {
        (bytes - flat) as nat
    }
}

/// Adds two counts, stopping at `usize::MAX`.
pub fn add_saturating(a: usize, b: usize) -> (r: usize)
    ensures
        r == sat_add(a as nat, b as nat),
{
    if a > usize::MAX - b {
        usize::MAX
    } else {
        a + b
    }
}

/// A value whose memory footprint can be measured.
///
/// A walk over a value threads one tracker through every part it visits. A part reached through
/// an address is charged only the first time the walk meets that address. Counts are added with
/// saturation: a footprint that does not fit a `usize` is reported as `usize::MAX`.
pub trait MemoryUsage {
    /// Bytes the value occupies inline. For a sized type this is the size of the type.
    open spec fn flat(&self) -> nat {
        flat_size(self)
    }

    /// A walk that starts with the addresses `seen` already charged may count `bytes` for this
    /// value and leave the addresses `after` charged. A type that does not describe its walks
    /// admits none, so verified code never measures it.
    open spec fn measures(&self, seen: Set<usize>, bytes: nat, after: Set<usize>) -> bool {
        false
    }

    /// This value, and each part a walk visits, can be measured.
    open spec fn fits(&self) -> bool {
        false
    }

    /// Every walk over this value counts at least its flat size. This holds of every value but a
    /// bare address, which counts nothing once the address is charged, and a marker, which
    /// always counts nothing.
    open spec fn counts_flat(&self) -> bool {
        true
    }

    /// Returns the size of the value in bytes: its flat size, tail padding included, plus what
    /// its parts own beyond it, each shared address counted once per tracker.
    fn size_of_val<Tr: MemoryUsageTracker + ?Sized>(&self, tracker: &mut Tr) -> (r: usize)
        requires
            self.fits(),
        ensures
            self.measures(old(tracker).charged(), r as nat, final(tracker).charged()),
            self.counts_flat() ==> self.flat() <= r,
            old(tracker).charged().subset_of(final(tracker).charged()),
    ;
}

/// A walk over `value` from `seen` to `after` that counts `bytes`: what its type says of such a
/// walk, together with what every walk guarantees. Unless the value is a bare address or a
/// marker it counts at least the flat size; it only adds addresses.
pub open spec fn measured<V: MemoryUsage + ?Sized>(
    value: &V,
    seen: Set<usize>,
    bytes: nat,
    after: Set<usize>,
) -> bool {
    &&& value.measures(seen, bytes, after)
    &&& value.counts_flat() ==> value.flat() <= bytes
    &&& bytes <= usize::MAX
    &&& seen.subset_of(after)
}

/// In a walk from `seen` to `after`, `value` counts `extra` bytes beyond its flat size.
pub open spec fn measures_extra<V: MemoryUsage + ?Sized>(
    value: &V,
    seen: Set<usize>,
    extra: nat,
    after: Set<usize>,
) -> bool {
    exists|bytes: nat| #[trigger]
        measured(value, seen, bytes, after) && extra == extra_of(bytes, value.flat())
}

/// A value of flat size `flat` that owns `inner` out of line counts its flat size plus all that
/// `inner` counts.
pub open spec fn measures_owner<T: MemoryUsage + ?Sized>(
    flat: nat,
    inner: &T,
    seen: Set<usize>,
    bytes: nat,
    after: Set<usize>,
) -> bool {
    exists|inner_bytes: nat| #[trigger]
        measured(inner, seen, inner_bytes, after) && bytes == sat_add(flat, inner_bytes)
}

/// Returns what `value` counts beyond its flat size.
pub fn size_of_extra<V: MemoryUsage, Tr: MemoryUsageTracker + ?Sized>(
    value: &V,
    tracker: &mut Tr,
) -> (r: usize)
    requires
        value.fits(),
        held_inline(value),
    ensures
        measures_extra(value, old(tracker).charged(), r as nat, final(tracker).charged()),
        old(tracker).charged().subset_of(final(tracker).charged()),
{
    let ghost seen = tracker.charged();
    let bytes = value.size_of_val(tracker);
    assert(measured(value, seen, bytes as nat, tracker.charged()));
    if bytes == usize::MAX {
        usize::MAX
    } else {
        bytes - core::mem::size_of::<V>()
    }
}

/// Returns `flat`, the flat size of a value that owns `inner` out of line, plus all that `inner`
/// counts.
pub fn size_of_owner<T: MemoryUsage + ?Sized, Tr: MemoryUsageTracker + ?Sized>(
    flat: usize,
    inner: &T,
    tracker: &mut Tr,
) -> (r: usize)
    requires
        inner.fits(),
    ensures
        measures_owner(flat as nat, inner, old(tracker).charged(), r as nat, final(tracker).charged()),
        flat <= r,
        old(tracker).charged().subset_of(final(tracker).charged()),
{
    let ghost seen = tracker.charged();
    let inner_bytes = inner.size_of_val(tracker);
    assert(measured(inner, seen, inner_bytes as nat, tracker.charged()));
    add_saturating(flat, inner_bytes)
}

/// One walk over `items` in order: item `i` starts with the addresses `marks[i]` charged, counts
/// `counts[i]` bytes and leaves `marks[i + 1]` charged.
pub open spec fn walk_steps<T: MemoryUsage>(
    items: Seq<T>,
    counts: Seq<nat>,
    marks: Seq<Set<usize>>,
) -> bool {
    &&& counts.len() == items.len()
    &&& marks.len() == items.len() + 1
    &&& forall|i: int|
        0 <= i < items.len() ==> #[trigger] measured(&items[i], marks[i], counts[i], marks[i + 1])
}

/// What the first `n` counts add beyond the flat sizes of their items.
pub open spec fn sum_extra<T: MemoryUsage>(items: Seq<T>, counts: Seq<nat>, n: nat) -> nat
    decreases n,
{
    if n == 0 {
        0
    } else {
        sat_add(
            sum_extra(items, counts, (n - 1) as nat),
            extra_of(counts[n - 1], items[n - 1].flat()),
        )
    }
}

/// The sum of the first `n` counts.
pub open spec fn sum_full(counts: Seq<nat>, n: nat) -> nat
    decreases n,
{
    if n == 0 {
        0
    } else {
        sat_add(sum_full(counts, (n - 1) as nat), counts[n - 1])
    }
}

/// A walk over `items` in order, starting with `seen` charged and ending with `after` charged, in
/// which the items count `extra` bytes beyond their flat sizes.
pub open spec fn walks_extra<T: MemoryUsage>(
    items: Seq<T>,
    seen: Set<usize>,
    extra: nat,
    after: Set<usize>,
) -> bool {
    exists|counts: Seq<nat>, marks: Seq<Set<usize>>|
        #![trigger walk_steps(items, counts, marks)]
        walk_steps(items, counts, marks) && marks[0] == seen && marks.last() == after
            && extra == sum_extra(items, counts, items.len())
}

/// A walk over `items` in order, starting with `seen` charged and ending with `after` charged, in
/// which the items count `total` bytes.
pub open spec fn walks_full<T: MemoryUsage>(
    items: Seq<T>,
    seen: Set<usize>,
    total: nat,
    after: Set<usize>,
) -> bool {
    exists|counts: Seq<nat>, marks: Seq<Set<usize>>|
        #![trigger walk_steps(items, counts, marks)]
        walk_steps(items, counts, marks) && marks[0] == seen && marks.last() == after
            && total == sum_full(counts, items.len())
}

pub open spec fn all_fit<T: MemoryUsage>(items: Seq<T>) -> bool {
    forall|i: int| 0 <= i < items.len() ==> (#[trigger] items[i]).fits()
}

/// A part held inline: every walk over it counts at least its flat size, which is the size of its
/// type.
pub open spec fn held_inline<T: MemoryUsage>(value: &T) -> bool {
    value.counts_flat() && value.flat() == size_of::<T>()
}

pub open spec fn all_inline<T: MemoryUsage>(items: Seq<T>) -> bool {
    forall|i: int| 0 <= i < items.len() ==> held_inline(&(#[trigger] items[i]))
}

/// Sums what each of `items` counts beyond its flat size, in order.
pub fn size_of_items_extra<T: MemoryUsage, Tr: MemoryUsageTracker + ?Sized>(
    items: &[T],
    tracker: &mut Tr,
) -> (r: usize)
    requires
        all_fit(items@),
        all_inline(items@),
    ensures
        walks_extra(items@, old(tracker).charged(), r as nat, final(tracker).charged()),
        old(tracker).charged().subset_of(final(tracker).charged()),
{
    let ghost seen = tracker.charged();
    let ghost mut counts: Seq<nat> = Seq::empty();
    let ghost mut marks: Seq<Set<usize>> = seq![seen];
    let mut total: usize = 0;
    let mut i: usize = 0;
    while i < items.len()
        invariant
            i <= items@.len(),
            all_fit(items@),
            all_inline(items@),
            counts.len() == i,
            marks.len() == i + 1,
            marks[0] == seen,
            marks.last() == tracker.charged(),
            seen.subset_of(tracker.charged()),
            forall|j: int|
                0 <= j < i ==> #[trigger] measured(&items@[j], marks[j], counts[j], marks[j + 1]),
            total == sum_extra(items@, counts, i as nat),
        decreases items@.len() - i,
    {
        let item = &items[i];
        assert(item.fits());
        let b = item.size_of_val(tracker);
        let extra = if b == usize::MAX {
            usize::MAX
        } else {
            b - core::mem::size_of::<T>()
        };
        proof {
            lemma_sum_extra_agree(items@, counts, counts.push(b as nat), i as nat);
            counts = counts.push(b as nat);
            marks = marks.push(tracker.charged());
        }
        total = add_saturating(total, extra);
        i = i + 1;
    }
    assert(walk_steps(items@, counts, marks));
    total
}

/// Sums what each of `items` counts, in order.
pub fn size_of_items_full<T: MemoryUsage, Tr: MemoryUsageTracker + ?Sized>(
    items: &[T],
    tracker: &mut Tr,
) -> (r: usize)
    requires
        all_fit(items@),
    ensures
        walks_full(items@, old(tracker).charged(), r as nat, final(tracker).charged()),
        old(tracker).charged().subset_of(final(tracker).charged()),
{
    let ghost seen = tracker.charged();
    let ghost mut counts: Seq<nat> = Seq::empty();
    let ghost mut marks: Seq<Set<usize>> = seq![seen];
    let mut total: usize = 0;
    let mut i: usize = 0;
    while i < items.len()
        invariant
            i <= items@.len(),
            all_fit(items@),
            counts.len() == i,
            marks.len() == i + 1,
            marks[0] == seen,
            marks.last() == tracker.charged(),
            seen.subset_of(tracker.charged()),
            forall|j: int|
                0 <= j < i ==> #[trigger] measured(&items@[j], marks[j], counts[j], marks[j + 1]),
            total == sum_full(counts, i as nat),
        decreases items@.len() - i,
    {
        let item = &items[i];
        assert(item.fits());
        let b = item.size_of_val(tracker);
        proof {
            lemma_sum_full_agree(counts, counts.push(b as nat), i as nat);
            counts = counts.push(b as nat);
            marks = marks.push(tracker.charged());
        }
        total = add_saturating(total, b);
        i = i + 1;
    }
    assert(walk_steps(items@, counts, marks));
    total
}

proof fn lemma_sum_extra_agree<T: MemoryUsage>(items: Seq<T>, c1: Seq<nat>, c2: Seq<nat>, n: nat)
    requires
        n <= c1.len(),
        n <= c2.len(),
        forall|j: int| 0 <= j < n ==> c1[j] == c2[j],
    ensures
        sum_extra(items, c1, n) == sum_extra(items, c2, n),
    decreases n,
{
    if n > 0 {
        lemma_sum_extra_agree(items, c1, c2, (n - 1) as nat);
    }
}

pub(crate) proof fn lemma_sum_full_agree(c1: Seq<nat>, c2: Seq<nat>, n: nat)
    requires
        n <= c1.len(),
        n <= c2.len(),
        forall|j: int| 0 <= j < n ==> c1[j] == c2[j],
    ensures
        sum_full(c1, n) == sum_full(c2, n),
    decreases n,
{
    if n > 0 {
        lemma_sum_full_agree(c1, c2, (n - 1) as nat);
    }
}

} // verus!
