//! How many base products a store has in each top-level category.
use vstd::prelude::*;

verus! {

/// The number of a store's base products in one top-level category.
#[derive(Debug, Clone, Copy, PartialEq, Eq, Structural)]
pub struct ProductCategories {
    pub category_id: i32,
    pub count: i32,
}

impl ProductCategories {
    /// The entry of a category that has its first base product.
    pub fn new(category_id: i32) -> (entry: ProductCategories)
        ensures
            entry == (ProductCategories { category_id, count: 1 }),
    {
        ProductCategories { category_id, count: 1 }
    }
}

/// The entry with `by` added to its count, if it is the entry of
/// `category_id`; any other entry as it is.
pub open spec fn bumped(entry: ProductCategories, category_id: i32, by: int) -> ProductCategories {
    if entry.category_id == category_id {
        ProductCategories { category_id: entry.category_id, count: (entry.count + by) as i32 }
    } else {
        entry
    }
}

/// Whether the list has an entry for the category.
pub open spec fn counts_category(entries: Seq<ProductCategories>, category_id: i32) -> bool {
    exists|i: int| 0 <= i < entries.len() && (#[trigger] entries[i]).category_id == category_id
}

/// The list after a base product was added to the category: every entry of
/// the category counts one more, and a category without an entry gets one
/// at the end, with the count 1.
pub open spec fn with_product_added(entries: Seq<ProductCategories>, category_id: i32) -> Seq<
    ProductCategories,
> {
    let counted = entries.map_values(|entry: ProductCategories| bumped(entry, category_id, 1));
    if counts_category(entries, category_id) {
        counted
    } else {
        counted.push(ProductCategories { category_id, count: 1 })
    }
}

/// The list after a base product was taken from the category: every entry
/// of the category counts one less, and leaves the list if nothing is left
/// to count.  The other entries stay, in their order.
pub open spec fn with_product_removed(entries: Seq<ProductCategories>, category_id: i32) -> Seq<
    ProductCategories,
> {
    entries.map_values(|entry: ProductCategories| bumped(entry, category_id, -1)).filter(
        |entry: ProductCategories| entry.category_id != category_id || entry.count > 0,
    )
}

/// Whether one more product can be counted in the category.
pub open spec fn can_add(entries: Seq<ProductCategories>, category_id: i32) -> bool {
    forall|i: int|
        0 <= i < entries.len() && (#[trigger] entries[i]).category_id == category_id
            ==> entries[i].count < i32::MAX
}

/// Whether one product less can be counted in the category.
pub open spec fn can_remove(entries: Seq<ProductCategories>, category_id: i32) -> bool {
    forall|i: int|
        0 <= i < entries.len() && (#[trigger] entries[i]).category_id == category_id
            ==> entries[i].count > i32::MIN
}

/// Whether one more product can be counted in the category: no entry of
/// the category stands at the greatest count.
pub fn can_add_product(entries: &Vec<ProductCategories>, category_id: i32) -> (r: bool)
    ensures
        r == can_add(entries@, category_id),
{
    let mut i: usize = 0;
    while i < entries.len()
        invariant
            i <= entries@.len(),
            forall|j: int|
                0 <= j < i && (#[trigger] entries@[j]).category_id == category_id ==> entries@[j].count
                    < i32::MAX,
        decreases entries@.len() - i,
    {
        if entries[i].category_id == category_id && entries[i].count == i32::MAX {
            return false;
        }
        i = i + 1;
    }
    true
}

/// Whether one product less can be counted in the category: no entry of
/// the category stands at the least count.
pub fn can_remove_product(entries: &Vec<ProductCategories>, category_id: i32) -> (r: bool)
    ensures
        r == can_remove(entries@, category_id),
{
    let mut i: usize = 0;
    while i < entries.len()
        invariant
            i <= entries@.len(),
            forall|j: int|
                0 <= j < i && (#[trigger] entries@[j]).category_id == category_id ==> entries@[j].count
                    > i32::MIN,
        decreases entries@.len() - i,
    {
        if entries[i].category_id == category_id && entries[i].count == i32::MIN {
            return false;
        }
        i = i + 1;
    }
    true
}

/// Counts one more base product in the category.
pub fn add_product(entries: Vec<ProductCategories>, category_id: i32) -> (counted: Vec<
    ProductCategories,
>)
    requires
        can_add(entries@, category_id),
    ensures
        counted@ == with_product_added(entries@, category_id),
{
    let ghost bump = |entry: ProductCategories| bumped(entry, category_id, 1);
    let mut counted: Vec<ProductCategories> = Vec::new();
    let mut cat_exists = false;
    let mut i: usize = 0;
    while i < entries.len()
        invariant
            i <= entries@.len(),
            can_add(entries@, category_id),
            bump == (|entry: ProductCategories| bumped(entry, category_id, 1)),
            counted@ == entries@.take(i as int).map_values(bump),
            cat_exists == counts_category(entries@.take(i as int), category_id),
        decreases entries@.len() - i,
    {
        let mut pc = entries[i];
        if pc.category_id == category_id {
            pc.count = pc.count + 1;
            cat_exists = true;
        }
        counted.push(pc);
        proof {
            let before = entries@.take(i as int);
            let after = entries@.take(i + 1);
            assert(after == before.push(entries@[i as int]));
            assert(after.map_values(bump) == before.map_values(bump).push(
                bump(entries@[i as int]),
            ));
            assert(after[i as int] == entries@[i as int]);
            if counts_category(before, category_id) {
                let j = choose|j: int|
                    0 <= j < before.len() && (#[trigger] before[j]).category_id == category_id;
                assert(after[j] == before[j]);
            }
            if counts_category(after, category_id) && entries@[i as int].category_id
                != category_id {
                let j = choose|j: int|
                    0 <= j < after.len() && (#[trigger] after[j]).category_id == category_id;
                assert(before[j] == after[j]);
            }
        }
        i = i + 1;
    }
    proof {
        assert(entries@.take(i as int) == entries@);
    }
    if !cat_exists {
        counted.push(ProductCategories::new(category_id));
    }
    counted
}

/// Counts one base product less in the category.
pub fn remove_product(entries: Vec<ProductCategories>, category_id: i32) -> (counted: Vec<
    ProductCategories,
>)
    requires
        can_remove(entries@, category_id),
    ensures
        counted@ == with_product_removed(entries@, category_id),
{
    let ghost bump = |entry: ProductCategories| bumped(entry, category_id, -1);
    let ghost kept = |entry: ProductCategories| entry.category_id != category_id || entry.count > 0;
    let mut counted: Vec<ProductCategories> = Vec::new();
    let mut i: usize = 0;
    while i < entries.len()
        invariant
            i <= entries@.len(),
            can_remove(entries@, category_id),
            bump == (|entry: ProductCategories| bumped(entry, category_id, -1)),
            kept == (|entry: ProductCategories|
                entry.category_id != category_id || entry.count > 0),
            counted@ == entries@.take(i as int).map_values(bump).filter(kept),
        decreases entries@.len() - i,
    {
        let mut pc = entries[i];
        proof {
            let before = entries@.take(i as int).map_values(bump);
            let after = entries@.take(i + 1).map_values(bump);
            assert(entries@.take(i + 1) == entries@.take(i as int).push(entries@[i as int]));
            assert(after == before.push(bump(entries@[i as int])));
            assert(after.drop_last() == before);
            reveal(Seq::filter);
        }
        if pc.category_id == category_id {
            pc.count = pc.count - 1;
            if pc.count > 0 {
                counted.push(pc);
            }
        } else {
            counted.push(pc);
        }
        i = i + 1;
    }
    proof {
        assert(entries@.take(i as int) == entries@);
    }
    counted
}

/// No entry is lost or made up when a product is added: the list keeps its
/// categories and gains at most the one that the product is in, and the
/// counts of the other categories stay.
pub proof fn adding_touches_one_category(entries: Seq<ProductCategories>, category_id: i32)
    ensures
        counts_category(with_product_added(entries, category_id), category_id),
        with_product_added(entries, category_id).len() == entries.len() + (if counts_category(
            entries,
            category_id,
        ) {
            0int
        } else {
            1int
        }),
        forall|i: int|
            0 <= i < entries.len() && (#[trigger] entries[i]).category_id != category_id
                ==> with_product_added(entries, category_id)[i] == entries[i],
{
    let counted = entries.map_values(|entry: ProductCategories| bumped(entry, category_id, 1));
    if counts_category(entries, category_id) {
        let i = choose|i: int|
            0 <= i < entries.len() && (#[trigger] entries[i]).category_id == category_id;
        assert(counted[i].category_id == category_id);
    } else {
        let added = with_product_added(entries, category_id);
        assert(added[entries.len() as int].category_id == category_id);
    }
}

} // verus!
