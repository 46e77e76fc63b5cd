//! What the base product service decides: which categories a search runs
//! over, how a store's counts of products per category follow the creation,
//! the move and the deactivation of a base product, and the steps of an
//! update.
use crate::models::product_categories::add_product;
use crate::models::product_categories::can_add;
use crate::models::product_categories::can_remove;
use crate::models::product_categories::remove_product;
use crate::models::product_categories::with_product_added;
use crate::models::product_categories::with_product_removed;
use crate::models::product_categories::ProductCategories;
use crate::repos::acl::outcome;
use crate::repos::error::RepoError;
use crate::repos::error::RepoErrorView;
use crate::repos::error::RepoResult;
use crate::services::error::service_outcome;
use crate::services::error::validation_failure;
use crate::services::error::ServiceError;
use crate::services::error::ServiceErrorView;
use vstd::prelude::*;

verus! {

/// The most products that a search for attribute filters looks at.
pub const MAX_PRODUCTS_SEARCH_COUNT: i32 = 1000;

/// Field and text of the failure that reports a slug that is taken.
pub const SLUG_FIELD: &'static str = "slug";

/// Text of the failure that reports a base product's slug that is taken.
pub const SLUG_TAKEN: &'static str = "Base product with this slug already exists";

/// The categories that a search runs over, where it names a category: the
/// category itself if it has no children, and else the categories at the
/// ends of its branches, which are handed in as `leaves`.
pub fn linearize_categories(category_id: i32, has_children: bool, leaves: Vec<i32>) -> (ids: Vec<
    i32,
>)
    ensures
        ids@ == if has_children {
            leaves@
        } else {
            seq![category_id]
        },
{
    if has_children {
        leaves
    } else {
        let mut ids: Vec<i32> = Vec::new();
        ids.push(category_id);
        ids
    }
}

/// The categories that a search for attribute filters runs over: the named
/// category if it has no children, and none at all if it has, since only the
/// products of one category share their attributes.
pub fn accept_only_categories_without_children(category_id: i32, has_children: bool) -> (ids:
    Option<Vec<i32>>)
    ensures
        has_children ==> ids is None,
        !has_children ==> (ids matches Some(only) && only@ == seq![category_id]),
{
    if has_children {
        None
    } else {
        let mut ids: Vec<i32> = Vec::new();
        ids.push(category_id);
        Some(ids)
    }
}

/// Whether a search for attribute filters is run at all: only over a set of
/// categories.
pub fn searches_attributes(categories_ids: &Option<Vec<i32>>) -> (r: bool)
    ensures
        r == (categories_ids is Some),
{
    categories_ids.is_some()
}

/// The first of `tables` that is marked with `code`, if one is.
pub open spec fn table_with_code<T>(tables: Seq<(i32, T)>, code: i32) -> Option<T>
    decreases tables.len(),
{
    if tables.len() == 0 {
        None
    } else if tables.first().0 == code {
        Some(tables.first().1)
    } else {
        table_with_code(tables.drop_first(), code)
    }
}

/// The exchange rates that prices are converted with in a search that names
/// a currency: the table of the currency with the code `currency_id`, out of
/// the tables of all currencies, each marked with the code of its currency.
/// A code that marks no table is "not found".
pub fn create_currency_map<T>(currency_id: i32, tables: Vec<(i32, T)>) -> (r: RepoResult<T>)
    ensures
        outcome(r) == match table_with_code(tables@, currency_id) {
            Some(table) => Ok::<T, RepoErrorView>(table),
            None => Err::<T, RepoErrorView>(RepoErrorView::NotFound),
        },
{
    let ghost all = tables@;
    proof {
        assert(all.skip(0) == all);
    }
    for entry in iter: tables
        invariant
            iter.seq() == all,
            table_with_code(all, currency_id) == table_with_code(
                all.skip(iter.index() as int),
                currency_id,
            ),
    {
        proof {
            let rest = all.skip(iter.index() as int);
            assert(rest.first() == entry);
            assert(rest.drop_first() == all.skip(iter.index() + 1));
        }
        let (code, table) = entry;
        if code == currency_id {
            return Ok(table);
        }
    }
    proof {
        assert(all.skip(all.len() as int).len() == 0);
    }
    Err(RepoError::NotFound)
}

/// What a category filter reads of the category that a search names.
#[derive(Debug, Clone, Copy, PartialEq, Eq, Structural)]
pub struct CategoryInfo {
    pub id: i32,
    pub parent_id: Option<i32>,
    pub level: i32,
    pub has_children: bool,
}

/// Where the categories of a category filter come from.
#[derive(Debug, Clone, Copy, PartialEq, Eq, Structural)]
pub enum CategorySource {
    /// The whole tree of categories.
    WholeTree,
    /// The tree, cut down around the category with this identifier.
    AroundCategory(i32),
    /// The categories of the products that the search index finds by name,
    /// kept in the tree down to the third level.
    FoundByName,
}

/// How the tree of categories is cut down around a category.
#[derive(Debug, Clone, Copy, PartialEq, Eq, Structural)]
pub struct TreeCut {
    /// The category whose branch is kept.
    pub keep: i32,
    /// How far below the root the kept category lies.
    pub keep_depth: i32,
    /// The depth from which on children are dropped, if any are.
    pub clear_below: Option<i32>,
}

/// Where the categories of a category filter come from: a search by name
/// takes them from the search index; a search without a name takes the tree,
/// whole or cut down around the category it names.
pub fn category_source(name_is_empty: bool, category_id: Option<i32>) -> (source: CategorySource)
    ensures
        source == if !name_is_empty {
            CategorySource::FoundByName
        } else {
            match category_id {
                Some(id) => CategorySource::AroundCategory(id),
                None => CategorySource::WholeTree,
            }
        },
{
    if name_is_empty {
        match category_id {
            Some(id) => CategorySource::AroundCategory(id),
            None => CategorySource::WholeTree,
        }
    } else {
        CategorySource::FoundByName
    }
}

/// How the tree is cut down around the named category.  Around a category
/// without children the branch of its parent is kept, two levels above the
/// category's own; a category without a parent stands under the root, whose
/// identifier is 0.  Around a category with children its own branch is kept,
/// one level above its own, and what lies below its children is dropped.
pub open spec fn tree_cut_spec(category: CategoryInfo) -> TreeCut {
    if category.has_children {
        TreeCut {
            keep: category.id,
            keep_depth: (category.level - 1) as i32,
            clear_below: Some((category.level + 1) as i32),
        }
    } else {
        TreeCut {
            keep: match category.parent_id {
                Some(parent) => parent,
                None => 0,
            },
            keep_depth: (category.level - 2) as i32,
            clear_below: None,
        }
    }
}

/// How the tree is cut down around the named category.  The level of the
/// category has to leave room for the two levels above it and the one below.
pub fn tree_cut(category: &CategoryInfo) -> (cut: TreeCut)
    requires
        i32::MIN + 2 <= category.level < i32::MAX,
    ensures
        cut == tree_cut_spec(*category),
{
    if category.has_children {
        TreeCut {
            keep: category.id,
            keep_depth: category.level - 1,
            clear_below: Some(category.level + 1),
        }
    } else {
        TreeCut {
            keep: match category.parent_id {
                Some(parent) => parent,
                None => 0,
            },
            keep_depth: category.level - 2,
            clear_below: None,
        }
    }
}

/// The top-level category that a base product's category lies under, or
/// "not found" where the tree has none.
pub fn require_top_category(found: Option<i32>) -> (r: RepoResult<i32>)
    ensures
        outcome(r) == match found {
            Some(id) => Ok::<i32, RepoErrorView>(id),
            None => Err::<i32, RepoErrorView>(RepoErrorView::NotFound),
        },
{
    match found {
        Some(id) => Ok(id),
        None => Err(RepoError::NotFound),
    }
}

/// A store's counts after a base product was created in the top-level
/// category `category_id`: a store without counts gets the one entry, and
/// else the product is added to the counts.
pub open spec fn counts_after_create(stored: Option<Seq<ProductCategories>>, category_id: i32)
    -> Seq<ProductCategories> {
    match stored {
        Some(entries) => with_product_added(entries, category_id),
        None => seq![ProductCategories { category_id, count: 1 }],
    }
}

/// A store's counts after a base product was deactivated in the top-level
/// category `category_id`: a store without counts has none afterwards, and
/// else the product is taken from the counts.
pub open spec fn counts_after_deactivate(
    stored: Option<Seq<ProductCategories>>,
    category_id: i32,
) -> Seq<ProductCategories> {
    match stored {
        Some(entries) => with_product_removed(entries, category_id),
        None => Seq::empty(),
    }
}

/// A store's counts after a base product moved from one top-level category
/// to another: it is taken from the counts of the first and added to those
/// of the second.
pub open spec fn counts_after_move(
    stored: Option<Seq<ProductCategories>>,
    old_cat_id: i32,
    new_cat_id: i32,
) -> Seq<ProductCategories> {
    with_product_added(counts_after_deactivate(stored, old_cat_id), new_cat_id)
}

/// The view of optional counts.
pub open spec fn stored_counts(stored: Option<Vec<ProductCategories>>) -> Option<
    Seq<ProductCategories>,
> {
    match stored {
        Some(entries) => Some(entries@),
        None => None,
    }
}

/// The counts that a store is given after a base product was created in
/// the top-level category `category_id`.
pub fn product_categories_after_create(
    stored: Option<Vec<ProductCategories>>,
    category_id: i32,
) -> (counted: Vec<ProductCategories>)
    requires
        stored matches Some(entries) ==> can_add(entries@, category_id),
    ensures
        counted@ == counts_after_create(stored_counts(stored), category_id),
{
    match stored {
        Some(entries) => add_product(entries, category_id),
        None => {
            let mut counted: Vec<ProductCategories> = Vec::new();
            counted.push(ProductCategories::new(category_id));
            counted
        },
    }
}

/// The counts that a store is given after a base product was deactivated
/// in the top-level category `category_id`.
pub fn product_categories_after_deactivate(
    stored: Option<Vec<ProductCategories>>,
    category_id: i32,
) -> (counted: Vec<ProductCategories>)
    requires
        stored matches Some(entries) ==> can_remove(entries@, category_id),
    ensures
        counted@ == counts_after_deactivate(stored_counts(stored), category_id),
{
    match stored {
        Some(entries) => remove_product(entries, category_id),
        None => Vec::new(),
    }
}

/// The counts that a store is given after a base product moved from the
/// top-level category `old_cat_id` to `new_cat_id`.
pub fn update_product_categories(
    stored: Option<Vec<ProductCategories>>,
    old_cat_id: i32,
    new_cat_id: i32,
) -> (counted: Vec<ProductCategories>)
    requires
        stored matches Some(entries) ==> can_remove(entries@, old_cat_id),
        can_add(counts_after_deactivate(stored_counts(stored), old_cat_id), new_cat_id),
    ensures
        counted@ == counts_after_move(stored_counts(stored), old_cat_id, new_cat_id),
{
    let taken = product_categories_after_deactivate(stored, old_cat_id);
    add_product(taken, new_cat_id)
}

/// What an update of a base product asks for, as far as the steps of the
/// update depend on it.
#[derive(Debug, Clone)]
pub struct UpdateRequest {
    pub slug: Option<String>,
    pub category_id: Option<i32>,
    pub currency_id: Option<i32>,
}

/// What happened during an update of a base product.
#[derive(Debug, Clone)]
pub enum UpdateEvent {
    /// The base product was read as it is stored, with this slug.
    Found { slug: String },
    /// It was looked up whether another base product has the new slug.
    SlugLookedUp { exists: bool },
    /// The update was written.  The base product `id` was in the category
    /// `old_category_id` before.
    Written { id: i32, old_category_id: i32 },
    /// The top-level categories of the old and of the new category were
    /// looked up in the tree.
    CategoriesResolved { old_top: Option<i32>, new_top: Option<i32> },
    /// The store's counts or the variants' currency were brought in line.
    FollowedUp,
}

/// What to do next in an update of a base product.
#[derive(Debug, Clone, Copy, PartialEq, Eq, Structural)]
pub enum UpdateAction {
    /// Look up whether another base product has the slug that is asked for.
    LookUpSlug,
    /// Write the update.
    Write,
    /// Look up the top-level categories that the two categories lie under.
    ResolveCategories { old_category_id: i32, new_category_id: i32 },
    /// Move one product from one top-level category to the other in the
    /// counts of the store.
    MoveInStoreCounts { old_top: i32, new_top: i32 },
    /// Give the variants of the base product the new currency.
    UpdateVariantsCurrency { currency_id: i32, base_product_id: i32 },
    /// Answer with the updated base product.
    Finish,
}

/// What follows an event in an update of a base product.
///
/// A slug is looked up only if one is asked for that differs from the
/// stored one; a slug that another base product has fails the update
/// before anything is written.  After the write a new category takes
/// precedence over a new currency: the store's counts follow the product to
/// its new top-level category, unless both categories lie under the same;
/// a category that lies under no top-level category fails the update as
/// "not found".  Without a new category a new currency is handed on to the
/// variants.
pub open spec fn update_next_spec(request: &UpdateRequest, event: &UpdateEvent) -> Result<
    UpdateAction,
    ServiceErrorView,
> {
    match event {
        UpdateEvent::Found { slug } => match request.slug {
            Some(asked) => if asked@ == slug@ {
                Ok(UpdateAction::Write)
            } else {
                Ok(UpdateAction::LookUpSlug)
            },
            None => Ok(UpdateAction::Write),
        },
        UpdateEvent::SlugLookedUp { exists } => if *exists {
            Err(validation_failure(SLUG_FIELD@, SLUG_TAKEN@))
        } else {
            Ok(UpdateAction::Write)
        },
        UpdateEvent::Written { id, old_category_id } => match request.category_id {
            Some(new_category_id) => Ok(
                UpdateAction::ResolveCategories {
                    old_category_id: *old_category_id,
                    new_category_id,
                },
            ),
            None => match request.currency_id {
                Some(currency_id) => Ok(
                    UpdateAction::UpdateVariantsCurrency { currency_id, base_product_id: *id },
                ),
                None => Ok(UpdateAction::Finish),
            },
        },
        UpdateEvent::CategoriesResolved { old_top, new_top } => match (*old_top, *new_top) {
            (Some(old_top), Some(new_top)) => if new_top != old_top {
                Ok(UpdateAction::MoveInStoreCounts { old_top, new_top })
            } else {
                Ok(UpdateAction::Finish)
            },
            _ => Err(ServiceErrorView::NotFound),
        },
        UpdateEvent::FollowedUp => Ok(UpdateAction::Finish),
    }
}

/// Says what to do next in an update of a base product.
pub fn update(request: &UpdateRequest, event: &UpdateEvent) -> (r: Result<
    UpdateAction,
    ServiceError,
>)
    ensures
        service_outcome(r) == update_next_spec(request, event),
{
    match event {
        UpdateEvent::Found { slug } => match &request.slug {
            Some(asked) => if *asked == *slug {
                Ok(UpdateAction::Write)
            } else {
                Ok(UpdateAction::LookUpSlug)
            },
            None => Ok(UpdateAction::Write),
        },
        UpdateEvent::SlugLookedUp { exists } => if *exists {
            Err(ServiceError::invalid(SLUG_FIELD, SLUG_TAKEN))
        } else {
            Ok(UpdateAction::Write)
        },
        UpdateEvent::Written { id, old_category_id } => match request.category_id {
            Some(new_category_id) => Ok(
                UpdateAction::ResolveCategories {
                    old_category_id: *old_category_id,
                    new_category_id,
                },
            ),
            None => match request.currency_id {
                Some(currency_id) => Ok(
                    UpdateAction::UpdateVariantsCurrency { currency_id, base_product_id: *id },
                ),
                None => Ok(UpdateAction::Finish),
            },
        },
        UpdateEvent::CategoriesResolved { old_top, new_top } => match (*old_top, *new_top) {
            (Some(old_top), Some(new_top)) => if new_top != old_top {
                Ok(UpdateAction::MoveInStoreCounts { old_top, new_top })
            } else {
                Ok(UpdateAction::Finish)
            },
            _ => Err(ServiceError::from(RepoError::NotFound)),
        },
        UpdateEvent::FollowedUp => Ok(UpdateAction::Finish),
    }
}

} // verus!
