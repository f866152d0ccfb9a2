use crate::memory_usage::{
    add_saturating, lemma_sum_full_agree, measured, sat_add, sum_full, MemoryUsage,
};
use crate::tracker::MemoryUsageTracker;
use std::collections::HashMap;
use vstd::layout::size_of;
use vstd::prelude::*;
use vstd::std_specs::hash::{into_iter, obeys_key_model, spec_hash_map_iter};

verus! {

/// The entries of `m` in the order its table yields them.
pub open spec fn table_entries<K, V>(m: &HashMap<K, V>) -> Seq<(K, V)> {
    into_iter(spec_hash_map_iter(m))
}

/// One walk over `entries` in order, each key walked before its value: key `i` starts with
/// `marks[2 * i]` charged and counts `counts[2 * i]`, its value then starts with
/// `marks[2 * i + 1]` charged and counts `counts[2 * i + 1]`.
pub open spec fn entry_steps<K: MemoryUsage, V: MemoryUsage>(
    entries: Seq<(K, V)>,
    counts: Seq<nat>,
    marks: Seq<Set<usize>>,
) -> bool {
    &&& counts.len() == 2 * entries.len()
    &&& marks.len() == 2 * entries.len() + 1
    &&& forall|i: int|
        #![trigger entries[i]]
        0 <= i < entries.len() ==> measured(&entries[i].0, marks[2 * i], counts[2 * i], marks[2 * i + 1])
            && measured(&entries[i].1, marks[2 * i + 1], counts[2 * i + 1], marks[2 * i + 2])
}

pub open spec fn entries_fit<K: MemoryUsage, V: MemoryUsage>(entries: Seq<(K, V)>) -> bool {
    forall|i: int| #![trigger entries[i]] 0 <= i < entries.len() ==> entries[i].0.fits() && entries[i].1.fits()
}

/// A key-value mapping counts its table header plus every key and every value in full, walked in
/// the order the table yields its entries: they live outside the header.
impl<K: MemoryUsage, V: MemoryUsage> MemoryUsage for HashMap<K, V> {
    open spec fn flat(&self) -> nat {
        size_of::<Self>()
    }

    open spec fn measures(&self, seen: Set<usize>, bytes: nat, after: Set<usize>) -> bool {
        exists|counts: Seq<nat>, marks: Seq<Set<usize>>|
            #![trigger entry_steps(table_entries(self), counts, marks)]
            entry_steps(table_entries(self), counts, marks) && marks[0] == seen && marks.last()
                == after && bytes == sat_add(self.flat(), sum_full(counts, counts.len()))
    }

    open spec fn fits(&self) -> bool {
        &&& entries_fit(table_entries(self))
        &&& obeys_key_model::<K>()
    }

    fn size_of_val<Tr: MemoryUsageTracker + ?Sized>(&self, tracker: &mut Tr) -> (r: usize) {
        broadcast use vstd::std_specs::hash::group_hash_axioms;

        let ghost entries = table_entries(self);
        let ghost seen = tracker.charged();
        let ghost mut counts: Seq<nat> = Seq::empty();
        let ghost mut marks: Seq<Set<usize>> = seq![seen];
        let mut total: usize = 0;
        for entry in it: self.iter()
            invariant
                it.seq().unref() == entries,
                entries_fit(entries),
                counts.len() == 2 * it.index(),
                marks.len() == 2 * it.index() + 1,
                marks[0] == seen,
                marks.last() == tracker.charged(),
                seen.subset_of(tracker.charged()),
                forall|i: int|
                    #![trigger entries[i]]
                    0 <= i < it.index() ==> measured(&entries[i].0, marks[2 * i], counts[2 * i], marks[2 * i + 1])
                        && measured(&entries[i].1, marks[2 * i + 1], counts[2 * i + 1], marks[2 * i + 2]),
                total == sum_full(counts, counts.len()),
        {
            let (key, value) = entry;
            let ghost i = it.index();
            assert(entries[i] == (*key, *value));
            let key_bytes = key.size_of_val(tracker);
            let ghost m1 = tracker.charged();
            let value_bytes = value.size_of_val(tracker);
            proof {
                let grown = counts.push(key_bytes as nat).push(value_bytes as nat);
                lemma_sum_full_agree(counts, grown, counts.len());
                assert(sum_full(grown, grown.len()) == sat_add(
                    sum_full(grown, (grown.len() - 1) as nat),
                    value_bytes as nat,
                ));
                counts = grown;
                marks = marks.push(m1).push(tracker.charged());
            }
            total = add_saturating(add_saturating(total, key_bytes), value_bytes);
        }
        assert(entry_steps(entries, counts, marks));
        add_saturating(core::mem::size_of::<Self>(), total)
    }
}

} // verus!
