use crate::memory_usage::{
    extra_of, measured, measures_extra, sat_add, sum_extra, sum_full, walk_steps, MemoryUsage,
};
use crate::derive::{
    extra_sum, field_term, impl_text, struct_accesses, struct_impl, variant_arm,
    variant_bindings, variant_pattern, Fields, Generics, Variant,
};
use crate::ptr::measures_referent;
use vstd::layout::size_of;
use vstd::prelude::*;

verus! {

/// A scalar owns nothing beyond its bit pattern: a walk over it counts exactly its flat size and
/// charges no address.
pub proof fn law_scalar_counts_flat_size(seen: Set<usize>, bytes: nat, after: Set<usize>)
    ensures
        forall|x: bool| #[trigger] x.measures(seen, bytes, after) <==> (bytes == size_of::<bool>() && after == seen),
        forall|x: char| #[trigger] x.measures(seen, bytes, after) <==> (bytes == size_of::<char>() && after == seen),
        forall|x: i8| #[trigger] x.measures(seen, bytes, after) <==> (bytes == size_of::<i8>() && after == seen),
        forall|x: i16| #[trigger] x.measures(seen, bytes, after) <==> (bytes == size_of::<i16>() && after == seen),
        forall|x: i32| #[trigger] x.measures(seen, bytes, after) <==> (bytes == size_of::<i32>() && after == seen),
        forall|x: i64| #[trigger] x.measures(seen, bytes, after) <==> (bytes == size_of::<i64>() && after == seen),
        forall|x: isize| #[trigger] x.measures(seen, bytes, after) <==> (bytes == size_of::<isize>() && after == seen),
        forall|x: u8| #[trigger] x.measures(seen, bytes, after) <==> (bytes == size_of::<u8>() && after == seen),
        forall|x: u16| #[trigger] x.measures(seen, bytes, after) <==> (bytes == size_of::<u16>() && after == seen),
        forall|x: u32| #[trigger] x.measures(seen, bytes, after) <==> (bytes == size_of::<u32>() && after == seen),
        forall|x: u64| #[trigger] x.measures(seen, bytes, after) <==> (bytes == size_of::<u64>() && after == seen),
        forall|x: usize| #[trigger] x.measures(seen, bytes, after) <==> (bytes == size_of::<usize>() && after == seen),
{
}

/// Two walks in a row, with one tracker, over a referent at the same address: the first charges
/// the address and counts the referent in full when the address was new; the second counts
/// nothing and charges nothing more.
pub proof fn law_address_counted_once<T: MemoryUsage + ?Sized>(
    referent: &T,
    address: usize,
    seen: Set<usize>,
    first: nat,
    mid: Set<usize>,
    second: nat,
    after: Set<usize>,
)
    requires
        measures_referent(referent, Some(address), seen, first, mid),
        measures_referent(referent, Some(address), mid, second, after),
    ensures
        mid.contains(address),
        !seen.contains(address) ==> measured(referent, seen.insert(address), first, mid),
        second == 0,
        after == mid,
{
    if !seen.contains(address) {
        assert(seen.insert(address).contains(address));
    }
}

/// A walk over an array counts its flat size, which holds every element's inline bytes, plus the
/// bytes each element counts beyond its own flat size, the elements walked in order.
pub proof fn law_array_adds_extras<T: MemoryUsage, const N: usize>(
    array: &[T; N],
    seen: Set<usize>,
    bytes: nat,
    after: Set<usize>,
)
    requires
        array.measures(seen, bytes, after),
    ensures
        exists|counts: Seq<nat>, marks: Seq<Set<usize>>|
            #![trigger walk_steps(array@, counts, marks)]
            walk_steps(array@, counts, marks) && marks[0] == seen && marks.last() == after
                && bytes == sat_add(array.flat(), sum_extra(array@, counts, array@.len())),
{
}

/// The same holds of a slice.
pub proof fn law_slice_adds_extras<T: MemoryUsage>(
    slice: &[T],
    seen: Set<usize>,
    bytes: nat,
    after: Set<usize>,
)
    requires
        slice.measures(seen, bytes, after),
    ensures
        exists|counts: Seq<nat>, marks: Seq<Set<usize>>|
            #![trigger walk_steps(slice@, counts, marks)]
            walk_steps(slice@, counts, marks) && marks[0] == seen && marks.last() == after
                && bytes == sat_add(slice.flat(), sum_extra(slice@, counts, slice@.len())),
{
}

/// A walk over a pair counts its flat size, which holds both slots and the padding between them,
/// plus what each slot counts beyond its own flat size, the first slot walked first.
pub proof fn law_pair_adds_extras<A: MemoryUsage, B: MemoryUsage>(
    pair: &(A, B),
    seen: Set<usize>,
    bytes: nat,
    after: Set<usize>,
)
    requires
        pair.measures(seen, bytes, after),
    ensures
        exists|mid: Set<usize>, first: nat, second: nat|
            #![trigger measures_extra(&pair.0, seen, first, mid), measures_extra(&pair.1, mid, second, after)]
            measures_extra(&pair.0, seen, first, mid) && measures_extra(&pair.1, mid, second, after)
                && bytes == sat_add(sat_add(pair.flat(), first), second),
{
}

/// Elements that own nothing add nothing: an array of them counts its flat size, once.
pub proof fn law_flat_array_counts_flat_size<const N: usize>(
    array: &[u64; N],
    seen: Set<usize>,
    bytes: nat,
    after: Set<usize>,
)
    requires
        measured(array, seen, bytes, after),
    ensures
        bytes == array.flat(),
        after == seen,
{
    let (counts, marks) = choose|counts: Seq<nat>, marks: Seq<Set<usize>>|
        walk_steps(array@, counts, marks) && marks[0] == seen && marks.last() == after
            && bytes == sat_add(array.flat(), sum_extra(array@, counts, array@.len()));
    lemma_flat_items(array@, counts, marks, array@.len());
}

proof fn lemma_flat_items(items: Seq<u64>, counts: Seq<nat>, marks: Seq<Set<usize>>, n: nat)
    requires
        walk_steps(items, counts, marks),
        n <= items.len(),
    ensures
        sum_extra(items, counts, n) == 0,
        marks[n as int] == marks[0],
    decreases n,
{
    if n > 0 {
        lemma_flat_items(items, counts, marks, (n - 1) as nat);
        assert(measured(&items[n - 1], marks[n - 1], counts[n - 1], marks[(n - 1) + 1]));
    }
}

/// A walk over a growable sequence counts the flat size of its type, which an empty sequence has
/// too, plus every element in full, the elements walked in order: they live outside the header.
pub proof fn law_vec_adds_full_sizes<T: MemoryUsage>(
    v: &Vec<T>,
    seen: Set<usize>,
    bytes: nat,
    after: Set<usize>,
)
    requires
        v.measures(seen, bytes, after),
    ensures
        exists|counts: Seq<nat>, marks: Seq<Set<usize>>|
            #![trigger walk_steps(v@, counts, marks)]
            walk_steps(v@, counts, marks) && marks[0] == seen && marks.last() == after
                && bytes == sat_add(size_of::<Vec<T>>(), sum_full(counts, v@.len())),
{
}

/// Slots that own nothing add nothing: a measured pair of them counts its flat size, which holds
/// both slots and the padding between them, once.
pub proof fn law_flat_pair_counts_flat_size<A: MemoryUsage, B: MemoryUsage>(
    pair: &(A, B),
    seen: Set<usize>,
    bytes: nat,
    after: Set<usize>,
)
    requires
        measured(pair, seen, bytes, after),
        pair.0.flat() < usize::MAX,
        pair.1.flat() < usize::MAX,
        forall|s: Set<usize>, b: nat, a: Set<usize>|
            #[trigger] pair.0.measures(s, b, a) ==> b == pair.0.flat() && a == s,
        forall|s: Set<usize>, b: nat, a: Set<usize>|
            #[trigger] pair.1.measures(s, b, a) ==> b == pair.1.flat() && a == s,
    ensures
        bytes == pair.flat(),
        after == seen,
{
    let (mid, first, second) = choose|mid: Set<usize>, first: nat, second: nat|
        measures_extra(&pair.0, seen, first, mid) && measures_extra(&pair.1, mid, second, after)
            && bytes == sat_add(sat_add(pair.flat(), first), second);
    let b0 = choose|b: nat|
        measured(&pair.0, seen, b, mid) && first == extra_of(b, pair.0.flat());
    let b1 = choose|b: nat|
        measured(&pair.1, mid, b, after) && second == extra_of(b, pair.1.flat());
}

/// A growable sequence of bytes counts the flat size of its type plus one byte per element.
pub proof fn law_byte_vec_counts_its_length(
    v: &Vec<u8>,
    seen: Set<usize>,
    bytes: nat,
    after: Set<usize>,
)
    requires
        v.measures(seen, bytes, after),
    ensures
        bytes == sat_add(size_of::<Vec<u8>>(), v@.len()),
        after == seen,
{
    broadcast use vstd::layout::layout_of_primitives;

    let (counts, marks) = choose|counts: Seq<nat>, marks: Seq<Set<usize>>|
        walk_steps(v@, counts, marks) && marks[0] == seen && marks.last() == after
            && bytes == sat_add(size_of::<Vec<u8>>(), sum_full(counts, v@.len()));
    lemma_byte_steps(v@, counts, marks, v@.len());
}

proof fn lemma_byte_steps(items: Seq<u8>, counts: Seq<nat>, marks: Seq<Set<usize>>, n: nat)
    requires
        walk_steps(items, counts, marks),
        n <= items.len(),
    ensures
        sum_full(counts, n) == sat_add(0, n),
        marks[n as int] == marks[0],
    decreases n,
{
    broadcast use vstd::layout::layout_of_primitives;

    if n > 0 {
        lemma_byte_steps(items, counts, marks, (n - 1) as nat);
        assert(measured(&items[n - 1], marks[n - 1], counts[n - 1], marks[(n - 1) + 1]));
    }
}

/// An aggregate with no fields gets an impl that returns its flat size plus nothing: no part is
/// measured.
pub proof fn law_fieldless_aggregate_counts_flat_size(
    name: Seq<char>,
    fields: Fields,
    generics: Generics,
)
    requires
        struct_accesses(fields).len() == 0,
    ensures
        struct_impl(name, fields, generics) == impl_text(name, generics, "0"@),
{
    assert(struct_accesses(fields).map_values(|a: Seq<char>| field_term(a))
        =~= Seq::<Seq<char>>::empty());
}

/// A variant with no fields adds nothing to the flat size of its type.
pub proof fn law_fieldless_variant_adds_nothing(variant: Variant)
    requires
        variant_bindings(variant.fields).len() == 0,
    ensures
        variant_arm(variant) == "Self::"@ + variant.ident@ + variant_pattern(variant.fields)
            + " => "@ + "0"@,
        extra_sum(variant_bindings(variant.fields)) == "0"@,
{
    assert(variant_bindings(variant.fields).map_values(
        |a: Seq<char>| field_term(a),
    ) =~= Seq::<Seq<char>>::empty());
}

} // verus!
