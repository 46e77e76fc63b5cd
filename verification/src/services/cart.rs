//! Grouping of what a cart holds: variants by their base product, base
//! products by their store.
use vstd::prelude::*;

verus! {

/// The items that share a key, in the order in which they came.
#[derive(Debug)]
pub struct Group<T> {
    pub key: i32,
    pub items: Vec<T>,
}

/// The keys of the items, each once, in the order in which they first occur.
pub open spec fn keys_in_order<T>(items: Seq<(i32, T)>) -> Seq<i32>
    decreases items.len(),
{
    if items.len() == 0 {
        Seq::empty()
    } else {
        let earlier = keys_in_order(items.drop_last());
        if earlier.contains(items.last().0) {
            earlier
        } else {
            earlier.push(items.last().0)
        }
    }
}

/// The items with the key `key`, in the order in which they occur.
pub open spec fn items_with_key<T>(items: Seq<(i32, T)>, key: i32) -> Seq<T>
    decreases items.len(),
{
    if items.len() == 0 {
        Seq::empty()
    } else {
        let earlier = items_with_key(items.drop_last(), key);
        if items.last().0 == key {
            earlier.push(items.last().1)
        } else {
            earlier
        }
    }
}

/// Whether `groups` are the groups of `items`: one group for each key, in
/// the order in which the keys first occur, each with the items of its key
/// in the order in which they occur.
pub open spec fn groups_of<T>(groups: Seq<Group<T>>, items: Seq<(i32, T)>) -> bool {
    &&& groups.len() == keys_in_order(items).len()
    &&& forall|g: int|
        0 <= g < groups.len() ==> (#[trigger] groups[g]).key == keys_in_order(items)[g]
            && groups[g].items@ == items_with_key(items, keys_in_order(items)[g])
}

/// No key has two groups.
pub proof fn keys_are_distinct<T>(items: Seq<(i32, T)>)
    ensures
        keys_in_order(items).no_duplicates(),
    decreases items.len(),
{
    if items.len() > 0 {
        keys_are_distinct(items.drop_last());
    }
}

/// A key has a group exactly if an item has the key, and then the group is
/// not empty.
pub proof fn keys_are_those_of_items<T>(items: Seq<(i32, T)>, key: i32)
    ensures
        keys_in_order(items).contains(key) <==> exists|i: int|
            0 <= i < items.len() && (#[trigger] items[i]).0 == key,
        keys_in_order(items).contains(key) <==> items_with_key(items, key).len() > 0,
    decreases items.len(),
{
    if items.len() > 0 {
        let earlier = items.drop_last();
        keys_are_those_of_items(earlier, key);
        let keys = keys_in_order(earlier);
        if keys.contains(key) {
            let i = choose|i: int| 0 <= i < earlier.len() && (#[trigger] earlier[i]).0 == key;
            assert(items[i] == earlier[i]);
            if !keys.contains(items.last().0) {
                assert(keys.push(items.last().0)[keys.index_of(key)] == key);
            }
        } else if items.last().0 == key {
            assert(items[items.len() - 1] == items.last());
            if keys.contains(items.last().0) {
            } else {
                assert(keys.push(key)[keys.len() as int] == key);
            }
        } else {
            if keys_in_order(items).contains(key) {
                let g = keys_in_order(items).index_of(key);
                assert(keys_in_order(items)[g] == key);
                if g < keys.len() {
                    assert(keys[g] == key);
                }
            }
            if exists|i: int| 0 <= i < items.len() && (#[trigger] items[i]).0 == key {
                let i = choose|i: int| 0 <= i < items.len() && (#[trigger] items[i]).0 == key;
                assert(earlier[i] == items[i]);
            }
        }
    }
}

/// No item is lost and none is made up: the groups hold as many items as
/// there are.
pub proof fn groups_hold_every_item<T>(items: Seq<(i32, T)>)
    ensures
        keys_in_order(items).fold_left(
            0int,
            |sum: int, key: i32| sum + items_with_key(items, key).len(),
        ) == items.len(),
    decreases items.len(),
{
    let count = |sum: int, key: i32| sum + items_with_key(items, key).len();
    if items.len() == 0 {
        assert(keys_in_order(items) =~= Seq::<i32>::empty());
    } else {
        let earlier = items.drop_last();
        let last_key = items.last().0;
        groups_hold_every_item(earlier);
        keys_are_distinct(earlier);
        keys_are_those_of_items(earlier, last_key);
        let keys = keys_in_order(earlier);
        let count_before = |sum: int, key: i32| sum + items_with_key(earlier, key).len();
        count_grows_by_one(keys, earlier, items, last_key);
        if !keys.contains(last_key) {
            let all = keys.push(last_key);
            assert(all.drop_last() == keys);
            assert(items_with_key(earlier, last_key).len() == 0);
        }
    }
}

/// Over keys without duplicates, one more item adds one to the count of the
/// items with these keys if its key is among them, and nothing otherwise.
proof fn count_grows_by_one<T>(
    keys: Seq<i32>,
    earlier: Seq<(i32, T)>,
    items: Seq<(i32, T)>,
    last_key: i32,
)
    requires
        items.len() > 0,
        earlier == items.drop_last(),
        last_key == items.last().0,
        keys.no_duplicates(),
    ensures
        keys.fold_left(0int, |sum: int, key: i32| sum + items_with_key(items, key).len())
            == keys.fold_left(
            0int,
            |sum: int, key: i32| sum + items_with_key(earlier, key).len(),
        ) + (if keys.contains(last_key) {
            1int
        } else {
            0int
        }),
    decreases keys.len(),
{
    if keys.len() > 0 {
        let front = keys.drop_last();
        assert(front.no_duplicates()) by {
            assert forall|a: int, b: int|
                0 <= a < front.len() && 0 <= b < front.len() && a != b implies front[a]
                != front[b] by {
                assert(front[a] == keys[a] && front[b] == keys[b]);
            }
        }
        count_grows_by_one(front, earlier, items, last_key);
        if keys.last() == last_key {
            if front.contains(last_key) {
                let a = front.index_of(last_key);
                assert(keys[a] == last_key && keys[keys.len() - 1] == last_key);
            }
            assert(keys[keys.len() - 1] == keys.last());
        } else {
            if keys.contains(last_key) {
                let a = keys.index_of(last_key);
                assert(front[a] == last_key);
            }
            if front.contains(last_key) {
                let a = front.index_of(last_key);
                assert(keys[a] == last_key);
            }
        }
    }
}

/// Groups items by their key.  There is one group for each key, the groups
/// stand in the order in which their keys first occur, and each group holds
/// the items of its key in the order in which they occur.
pub fn group_by_key<T>(items: Vec<(i32, T)>) -> (groups: Vec<Group<T>>)
    ensures
        groups_of(groups@, items@),
{
    let ghost all = items@;
    let mut groups: Vec<Group<T>> = Vec::new();
    for item in iter: items
        invariant
            iter.seq() == all,
            groups_of(groups@, all.take(iter.index() as int)),
    {
        let ghost n = iter.index() as int;
        let ghost before = all.take(n);
        let ghost after = all.take(n + 1);
        let ghost old_groups = groups@;
        proof {
            assert(after.drop_last() == before);
            assert(after.last() == all[n]);
            assert(all[n] == item);
            keys_are_distinct(before);
        }
        let (key, value) = item;
        let mut j: usize = 0;
        while j < groups.len() && groups[j].key != key
            invariant
                j <= groups@.len(),
                groups@ == old_groups,
                groups_of(groups@, before),
                forall|g: int| 0 <= g < j ==> keys_in_order(before)[g] != key,
            decreases groups@.len() - j,
        {
            j = j + 1;
        }
        if j < groups.len() {
            groups[j].items.push(value);
            proof {
                let keys = keys_in_order(before);
                assert(keys[j as int] == key);
                assert(keys_in_order(after) == keys);
                assert forall|g: int| 0 <= g < groups@.len() implies (#[trigger] groups@[g]).key
                    == keys[g] && groups@[g].items@ == items_with_key(after, keys[g]) by {
                    if g != j {
                        assert(groups@[g] == old_groups[g]);
                        assert(keys[g] != keys[j as int]);
                    }
                }
            }
        } else {
            let mut only: Vec<T> = Vec::new();
            only.push(value);
            groups.push(Group { key, items: only });
            proof {
                let keys = keys_in_order(before);
                keys_are_those_of_items(before, key);
                assert(!keys.contains(key));
                assert(keys_in_order(after) == keys.push(key));
                assert(items_with_key(before, key).len() == 0);
                assert(items_with_key(after, key) == seq![value]);
                assert forall|g: int| 0 <= g < groups@.len() implies (#[trigger] groups@[g]).key
                    == keys_in_order(after)[g] && groups@[g].items@ == items_with_key(
                    after,
                    keys_in_order(after)[g],
                ) by {
                    if g < old_groups.len() {
                        assert(groups@[g] == old_groups[g]);
                        assert(keys[g] != key);
                    }
                }
            }
        }
    }
    proof {
        assert(all.take(all.len() as int) == all);
    }
    groups
}

} // verus!
