//! Attribute filters that a search offers: for each attribute the distinct
//! values that the found variants have.
use crate::services::cart::keys_are_distinct;
use crate::services::cart::keys_are_those_of_items;
use crate::services::cart::keys_in_order;
use vstd::prelude::*;

verus! {

/// The values that one attribute can be filtered by.
#[derive(Debug)]
pub struct EqualFilter {
    pub id: i32,
    pub values: Vec<String>,
}

/// The texts of strings.
pub open spec fn texts(strings: Seq<String>) -> Seq<Seq<char>> {
    Seq::new(strings.len(), |i: int| strings[i]@)
}

/// The values that occur with the attribute `id`, each once, in the order
/// in which they first occur.
pub open spec fn distinct_values(occurrences: Seq<(i32, String)>, id: i32) -> Seq<Seq<char>>
    decreases occurrences.len(),
{
    if occurrences.len() == 0 {
        Seq::empty()
    } else {
        let earlier = distinct_values(occurrences.drop_last(), id);
        if occurrences.last().0 == id && !earlier.contains(occurrences.last().1@) {
            earlier.push(occurrences.last().1@)
        } else {
            earlier
        }
    }
}

/// Whether `filters` are the filters of `occurrences`: one filter for each
/// attribute that occurs, in the order in which the attributes first occur,
/// each with the distinct values of its attribute.
pub open spec fn filters_of(filters: Seq<EqualFilter>, occurrences: Seq<(i32, String)>) -> bool {
    &&& filters.len() == keys_in_order(occurrences).len()
    &&& forall|f: int|
        0 <= f < filters.len() ==> (#[trigger] filters[f]).id == keys_in_order(occurrences)[f]
            && texts(filters[f].values@) == distinct_values(
            occurrences,
            keys_in_order(occurrences)[f],
        )
}

/// No value is offered twice for an attribute, and a value is offered
/// exactly if it occurs with the attribute.
pub proof fn values_are_distinct_and_complete(
    occurrences: Seq<(i32, String)>,
    id: i32,
    value: Seq<char>,
)
    ensures
        distinct_values(occurrences, id).no_duplicates(),
        distinct_values(occurrences, id).contains(value) <==> exists|i: int|
            0 <= i < occurrences.len() && (#[trigger] occurrences[i]).0 == id && occurrences[i].1@
                == value,
    decreases occurrences.len(),
{
    if occurrences.len() > 0 {
        let earlier_occurrences = occurrences.drop_last();
        values_are_distinct_and_complete(earlier_occurrences, id, value);
        let earlier = distinct_values(earlier_occurrences, id);
        let all = distinct_values(occurrences, id);
        let last = occurrences.last();
        assert(occurrences[occurrences.len() - 1] == last);
        if earlier.contains(value) {
            let i = choose|i: int|
                0 <= i < earlier_occurrences.len() && (#[trigger] earlier_occurrences[i]).0 == id
                    && earlier_occurrences[i].1@ == value;
            assert(occurrences[i] == earlier_occurrences[i]);
            let at = earlier.index_of(value);
            assert(all[at] == value);
        } else {
            if all.contains(value) {
                let at = all.index_of(value);
                assert(all[at] == value);
                if at < earlier.len() {
                    assert(earlier[at] == value);
                }
                assert(last.0 == id && last.1@ == value);
            }
            if exists|i: int|
                0 <= i < occurrences.len() && (#[trigger] occurrences[i]).0 == id
                    && occurrences[i].1@ == value {
                let i = choose|i: int|
                    0 <= i < occurrences.len() && (#[trigger] occurrences[i]).0 == id
                        && occurrences[i].1@ == value;
                if i < occurrences.len() - 1 {
                    assert(earlier_occurrences[i] == occurrences[i]);
                }
                assert(all == earlier.push(value));
                assert(all[earlier.len() as int] == value);
            }
        }
    }
}

/// Collects the values that attributes can be filtered by from the
/// occurrences of values on the variants that a search found.  Each
/// occurrence names an attribute and a value.
pub fn equal_filters(occurrences: Vec<(i32, String)>) -> (filters: Vec<EqualFilter>)
    ensures
        filters_of(filters@, occurrences@),
{
    let ghost all = occurrences@;
    let mut filters: Vec<EqualFilter> = Vec::new();
    for occurrence in iter: occurrences
        invariant
            iter.seq() == all,
            filters_of(filters@, all.take(iter.index() as int)),
    {
        let ghost n = iter.index() as int;
        let ghost before = all.take(n);
        let ghost after = all.take(n + 1);
        let ghost old_filters = filters@;
        proof {
            assert(after.drop_last() == before);
            assert(after.last() == all[n]);
            assert(all[n] == occurrence);
            keys_are_distinct(before);
        }
        let (id, value) = occurrence;
        let mut j: usize = 0;
        while j < filters.len() && filters[j].id != id
            invariant
                j <= filters@.len(),
                filters@ == old_filters,
                filters_of(filters@, before),
                forall|f: int| 0 <= f < j ==> keys_in_order(before)[f] != id,
            decreases filters@.len() - j,
        {
            j = j + 1;
        }
        if j < filters.len() {
            let ghost held = filters@[j as int].values@;
            let mut k: usize = 0;
            while k < filters[j].values.len() && filters[j].values[k] != value
                invariant
                    j < filters@.len(),
                    filters@ == old_filters,
                    held == filters@[j as int].values@,
                    k <= held.len(),
                    forall|v: int| 0 <= v < k ==> held[v]@ != value@,
                decreases held.len() - k,
            {
                k = k + 1;
            }
            let is_new = k >= filters[j].values.len();
            proof {
                let keys = keys_in_order(before);
                assert(keys[j as int] == id);
                assert(keys_in_order(after) == keys);
                let earlier = distinct_values(before, id);
                assert(texts(held) == earlier);
                if is_new {
                    assert(!earlier.contains(value@)) by {
                        if earlier.contains(value@) {
                            let at = earlier.index_of(value@);
                            assert(texts(held)[at] == held[at]@);
                        }
                    }
                } else {
                    assert(texts(held)[k as int] == held[k as int]@);
                    assert(earlier.contains(value@));
                }
            }
            if is_new {
                filters[j].values.push(value);
            }
            proof {
                let keys = keys_in_order(before);
                assert forall|f: int| 0 <= f < filters@.len() implies (#[trigger] filters@[f]).id
                    == keys[f] && texts(filters@[f].values@) == distinct_values(
                    after,
                    keys[f],
                ) by {
                    if f != j {
                        assert(filters@[f] == old_filters[f]);
                        assert(keys[f] != keys[j as int]);
                    } else if is_new {
                        assert(texts(filters@[f].values@) == texts(held).push(value@));
                    }
                }
            }
        } else {
            let mut only: Vec<String> = Vec::new();
            only.push(value);
            filters.push(EqualFilter { id, values: only });
            proof {
                let keys = keys_in_order(before);
                keys_are_those_of_items(before, id);
                assert(!keys.contains(id));
                assert(keys_in_order(after) == keys.push(id));
                no_occurrence_no_value(before, id);
                assert(distinct_values(after, id) == seq![value@]);
                assert(texts(seq![value]) == seq![value@]);
                assert forall|f: int| 0 <= f < filters@.len() implies (#[trigger] filters@[f]).id
                    == keys_in_order(after)[f] && texts(filters@[f].values@) == distinct_values(
                    after,
                    keys_in_order(after)[f],
                ) by {
                    if f < old_filters.len() {
                        assert(filters@[f] == old_filters[f]);
                        assert(keys[f] != id);
                    }
                }
            }
        }
    }
    proof {
        assert(all.take(all.len() as int) == all);
    }
    filters
}

proof fn no_occurrence_no_value(occurrences: Seq<(i32, String)>, id: i32)
    requires
        forall|i: int| 0 <= i < occurrences.len() ==> (#[trigger] occurrences[i]).0 != id,
    ensures
        distinct_values(occurrences, id).len() == 0,
    decreases occurrences.len(),
{
    if occurrences.len() > 0 {
        let earlier = occurrences.drop_last();
        assert forall|i: int| 0 <= i < earlier.len() implies (#[trigger] earlier[i]).0 != id by {
            assert(earlier[i] == occurrences[i]);
        }
        no_occurrence_no_value(earlier, id);
        assert(occurrences[occurrences.len() - 1] == occurrences.last());
    }
}

} // verus!
