use stores_lib::acl::engine::{AclPolicy, Engine};
use stores_lib::acl::scope::{Candidate, OwnershipChains};
use stores_lib::models::authorization::{Action, Resource, Role, Rule, Scope};
use stores_lib::models::product_categories::ProductCategories;
use stores_lib::repos;
use stores_lib::services::base_products::{
    accept_only_categories_without_children, category_source, create_currency_map, linearize_categories,
    product_categories_after_create, product_categories_after_deactivate, require_top_category,
    searches_attributes, tree_cut, update, update_product_categories, CategoryInfo, CategorySource,
    TreeCut, UpdateAction, UpdateEvent, UpdateRequest, MAX_PRODUCTS_SEARCH_COUNT,
};
use stores_lib::services::error::ServiceError;
use stores_lib::services::filters::equal_filters;

const MOCK_USER_ID: i32 = 1;
const MOCK_BASE_PRODUCT_ID: i32 = 1;
const MOCK_STORE_ID: i32 = 1;
const USER: Role = Role(1);

/// A base product as far as these tests look at it.
#[derive(Clone, Debug, PartialEq)]
struct BaseProduct {
    id: i32,
    store_id: i32,
    is_active: bool,
    slug: String,
    category_id: i32,
    currency_id: i32,
}

fn create_base_product(id: i32) -> BaseProduct {
    BaseProduct { id, store_id: MOCK_STORE_ID, is_active: true, slug: "slug".to_string(), category_id: 3, currency_id: 1 }
}

fn engine() -> Engine {
    let rules = [Action::Create, Action::Read, Action::Update, Action::Delete]
        .iter()
        .map(|action| Rule { role: USER, resource: Resource::Products, action: *action, scope: Scope::Owned })
        .collect();
    Engine::new(&rules, vec![])
}

fn chains() -> OwnershipChains {
    let mut chains = OwnershipChains::new();
    chains.add_store(MOCK_STORE_ID, MOCK_USER_ID);
    for id in 1..10 {
        chains.add_base_product(id, MOCK_STORE_ID);
    }
    chains
}

/// Stands in for the service on storage that is made up on the spot.  Base
/// products are guarded as the variants are: through their store.
struct BaseProductsService<'a> {
    acl: AclPolicy<'a>,
    chains: OwnershipChains,
    /// The top-level category that each category lies under.
    top_level: fn(i32) -> Option<i32>,
    store_counts: Option<Vec<ProductCategories>>,
}

fn top_level(category_id: i32) -> Option<i32> {
    match category_id {
        3 => Some(1),
        4 => Some(1),
        5 => Some(2),
        _ => None,
    }
}

impl<'a> BaseProductsService<'a> {
    fn new(engine: &'a Engine, user_id: Option<i32>) -> Self {
        BaseProductsService {
            acl: engine.policy(user_id, vec![USER]),
            chains: chains(),
            top_level,
            store_counts: None,
        }
    }

    fn guard(&self, action: Action, product: &BaseProduct) -> Result<(), ServiceError> {
        repos::acl::check(
            &self.acl,
            Resource::Products,
            action,
            &self.chains,
            Some(&Candidate::OfBaseProduct(product.id)),
        )
        .map_err(ServiceError::from)
    }

    fn get(&self, id: i32) -> Result<BaseProduct, ServiceError> {
        let found = create_base_product(id);
        self.guard(Action::Read, &found)?;
        Ok(found)
    }

    fn list(&self, from: i32, count: i32) -> Result<Vec<BaseProduct>, ServiceError> {
        let found: Vec<BaseProduct> = (from..from + count).map(create_base_product).collect();
        let candidates = found.iter().map(|p| Candidate::OfBaseProduct(p.id)).collect();
        repos::products::list(&self.acl, &self.chains, candidates).map_err(ServiceError::from)?;
        Ok(found)
    }

    fn create(&mut self, category_id: i32) -> Result<BaseProduct, ServiceError> {
        let mut product = create_base_product(MOCK_BASE_PRODUCT_ID);
        product.category_id = category_id;
        self.guard(Action::Create, &product)?;
        let top = require_top_category((self.top_level)(category_id)).map_err(ServiceError::from)?;
        self.store_counts = Some(product_categories_after_create(self.store_counts.take(), top));
        Ok(product)
    }

    fn deactivate(&mut self, id: i32) -> Result<BaseProduct, ServiceError> {
        let mut product = create_base_product(id);
        self.guard(Action::Delete, &product)?;
        product.is_active = false;
        let top =
            require_top_category((self.top_level)(product.category_id)).map_err(ServiceError::from)?;
        self.store_counts = Some(product_categories_after_deactivate(self.store_counts.take(), top));
        Ok(product)
    }

    fn update(&mut self, id: i32, request: UpdateRequest, taken_slug: &str) -> Result<BaseProduct, ServiceError> {
        let stored = create_base_product(id);
        let mut updated = stored.clone();
        let mut event = UpdateEvent::Found { slug: stored.slug.clone() };
        loop {
            match update(&request, &event)? {
                UpdateAction::LookUpSlug => {
                    event = UpdateEvent::SlugLookedUp { exists: request.slug.as_deref() == Some(taken_slug) };
                }
                UpdateAction::Write => {
                    self.guard(Action::Update, &stored)?;
                    if let Some(slug) = &request.slug {
                        updated.slug = slug.clone();
                    }
                    if let Some(category_id) = request.category_id {
                        updated.category_id = category_id;
                    }
                    event = UpdateEvent::Written { id, old_category_id: stored.category_id };
                }
                UpdateAction::ResolveCategories { old_category_id, new_category_id } => {
                    event = UpdateEvent::CategoriesResolved {
                        old_top: (self.top_level)(old_category_id),
                        new_top: (self.top_level)(new_category_id),
                    };
                }
                UpdateAction::MoveInStoreCounts { old_top, new_top } => {
                    self.store_counts =
                        Some(update_product_categories(self.store_counts.take(), old_top, new_top));
                    event = UpdateEvent::FollowedUp;
                }
                UpdateAction::UpdateVariantsCurrency { currency_id, base_product_id } => {
                    assert_eq!(base_product_id, id);
                    updated.currency_id = currency_id;
                    event = UpdateEvent::FollowedUp;
                }
                UpdateAction::Finish => return Ok(updated),
            }
        }
    }
}

fn create_update_base_product() -> UpdateRequest {
    UpdateRequest { slug: None, category_id: None, currency_id: Some(1) }
}

fn pc(category_id: i32, count: i32) -> ProductCategories {
    ProductCategories { category_id, count }
}

#[test]
fn test_get_base_product() {
    let engine = engine();
    let service = BaseProductsService::new(&engine, Some(MOCK_USER_ID));
    let result = service.get(1).unwrap();
    assert_eq!(result.id, 1);
}

#[test]
fn base_products_test_list() {
    let engine = engine();
    let service = BaseProductsService::new(&engine, Some(MOCK_USER_ID));
    let result = service.list(1, 5).unwrap();
    assert_eq!(result.len(), 5);
}

#[test]
fn test_create_base_product() {
    let engine = engine();
    let mut service = BaseProductsService::new(&engine, Some(MOCK_USER_ID));
    let result = service.create(3).unwrap();
    assert_eq!(result.id, MOCK_BASE_PRODUCT_ID);
    assert_eq!(service.store_counts, Some(vec![pc(1, 1)]));
}

#[test]
fn base_products_test_update() {
    let engine = engine();
    let mut service = BaseProductsService::new(&engine, Some(MOCK_USER_ID));
    let new_base_product = create_update_base_product();
    let result = service.update(1, new_base_product, "taken").unwrap();
    assert_eq!(result.id, 1);
    assert_eq!(result.id, MOCK_BASE_PRODUCT_ID);
}

#[test]
fn base_products_test_deactivate() {
    let engine = engine();
    let mut service = BaseProductsService::new(&engine, Some(MOCK_USER_ID));
    let result = service.deactivate(1).unwrap();
    assert_eq!(result.id, 1);
    assert_eq!(result.is_active, false);
}

#[test]
fn update_moves_the_product_in_the_store_counts() {
    let engine = engine();
    let mut service = BaseProductsService::new(&engine, Some(MOCK_USER_ID));
    service.store_counts = Some(vec![pc(1, 1), pc(2, 4)]);
    let moved = UpdateRequest { slug: None, category_id: Some(5), currency_id: Some(9) };
    let result = service.update(1, moved, "taken").unwrap();
    assert_eq!(result.category_id, 5);
    // a new category takes precedence over a new currency
    assert_eq!(result.currency_id, 1);
    assert_eq!(service.store_counts, Some(vec![pc(2, 5)]));
    // a move under the same top-level category leaves the counts
    let same_top = UpdateRequest { slug: None, category_id: Some(4), currency_id: None };
    service.update(1, same_top, "taken").unwrap();
    assert_eq!(service.store_counts, Some(vec![pc(2, 5)]));
    // a category under no top-level category is not found
    let nowhere = UpdateRequest { slug: None, category_id: Some(77), currency_id: None };
    assert!(matches!(service.update(1, nowhere, "taken"), Err(ServiceError::NotFound)));
}

#[test]
fn base_product_update_steps() {
    let request = UpdateRequest { slug: Some("new".to_string()), category_id: None, currency_id: Some(2) };
    let found_same = UpdateEvent::Found { slug: "new".to_string() };
    let found_other = UpdateEvent::Found { slug: "old".to_string() };
    assert_eq!(update(&request, &found_same).ok(), Some(UpdateAction::Write));
    assert_eq!(update(&request, &found_other).ok(), Some(UpdateAction::LookUpSlug));
    assert_eq!(update(&request, &UpdateEvent::SlugLookedUp { exists: false }).ok(), Some(UpdateAction::Write));
    match update(&request, &UpdateEvent::SlugLookedUp { exists: true }) {
        Err(ServiceError::Validate(errors)) => {
            let by_field = errors.field_errors();
            let of_slug = by_field.get("slug").expect("the slug is reported");
            assert_eq!(of_slug[0].code, "slug");
            assert_eq!(
                of_slug[0].message.as_deref(),
                Some("Base product with this slug already exists")
            );
        }
        other => panic!("expected a validation failure, got {:?}", other),
    }
    assert_eq!(
        update(&request, &UpdateEvent::Written { id: 7, old_category_id: 3 }).ok(),
        Some(UpdateAction::UpdateVariantsCurrency { currency_id: 2, base_product_id: 7 })
    );
    let plain = UpdateRequest { slug: None, category_id: None, currency_id: None };
    assert_eq!(update(&plain, &found_other).ok(), Some(UpdateAction::Write));
    assert_eq!(
        update(&plain, &UpdateEvent::Written { id: 7, old_category_id: 3 }).ok(),
        Some(UpdateAction::Finish)
    );
    let moved = UpdateRequest { slug: None, category_id: Some(5), currency_id: Some(2) };
    assert_eq!(
        update(&moved, &UpdateEvent::Written { id: 7, old_category_id: 3 }).ok(),
        Some(UpdateAction::ResolveCategories { old_category_id: 3, new_category_id: 5 })
    );
    let resolved = |old_top, new_top| update(&moved, &UpdateEvent::CategoriesResolved { old_top, new_top });
    assert_eq!(
        resolved(Some(1), Some(2)).ok(),
        Some(UpdateAction::MoveInStoreCounts { old_top: 1, new_top: 2 })
    );
    assert_eq!(resolved(Some(1), Some(1)).ok(), Some(UpdateAction::Finish));
    assert!(matches!(resolved(None, Some(1)), Err(ServiceError::NotFound)));
    assert!(matches!(resolved(Some(1), None), Err(ServiceError::NotFound)));
    assert!(matches!(resolved(None, None), Err(ServiceError::NotFound)));
    assert_eq!(update(&moved, &UpdateEvent::FollowedUp).ok(), Some(UpdateAction::Finish));
}

#[test]
fn store_counts_follow_products() {
    assert_eq!(product_categories_after_create(None, 4), vec![pc(4, 1)]);
    assert_eq!(product_categories_after_create(Some(vec![]), 4), vec![pc(4, 1)]);
    assert_eq!(product_categories_after_create(Some(vec![pc(4, 2), pc(5, 1)]), 4), vec![pc(4, 3), pc(5, 1)]);
    assert_eq!(product_categories_after_create(Some(vec![pc(5, 1)]), 4), vec![pc(5, 1), pc(4, 1)]);
    assert_eq!(product_categories_after_deactivate(None, 4), vec![]);
    assert_eq!(product_categories_after_deactivate(Some(vec![pc(4, 2), pc(5, 1)]), 4), vec![pc(4, 1), pc(5, 1)]);
    assert_eq!(product_categories_after_deactivate(Some(vec![pc(4, 1), pc(5, 1)]), 4), vec![pc(5, 1)]);
    assert_eq!(product_categories_after_deactivate(Some(vec![pc(5, 1)]), 4), vec![pc(5, 1)]);
    assert_eq!(update_product_categories(None, 4, 5), vec![pc(5, 1)]);
    assert_eq!(update_product_categories(Some(vec![pc(4, 1), pc(5, 1)]), 4, 5), vec![pc(5, 2)]);
    assert_eq!(update_product_categories(Some(vec![pc(4, 3)]), 4, 5), vec![pc(4, 2), pc(5, 1)]);
}

#[test]
fn rates_are_those_of_the_named_currency() {
    let tables = || vec![(1, "rouble"), (2, "euro"), (3, "dollar"), (2, "again")];
    assert_eq!(create_currency_map(1, tables()).ok(), Some("rouble"));
    assert_eq!(create_currency_map(2, tables()).ok(), Some("euro"));
    assert_eq!(create_currency_map(3, tables()).ok(), Some("dollar"));
    assert!(matches!(create_currency_map(4, tables()), Err(repos::error::RepoError::NotFound)));
    let none: Vec<(i32, u8)> = Vec::new();
    assert!(matches!(create_currency_map(1, none), Err(repos::error::RepoError::NotFound)));
}

#[test]
fn top_level_category_is_required() {
    assert_eq!(require_top_category(Some(3)).ok(), Some(3));
    assert!(matches!(require_top_category(None), Err(repos::error::RepoError::NotFound)));
}

#[test]
fn search_runs_over_leaf_categories() {
    assert_eq!(linearize_categories(7, false, vec![1, 2]), vec![7]);
    assert_eq!(linearize_categories(7, true, vec![8, 9]), vec![8, 9]);
    assert_eq!(linearize_categories(7, true, vec![]), Vec::<i32>::new());
    assert_eq!(accept_only_categories_without_children(7, false), Some(vec![7]));
    assert_eq!(accept_only_categories_without_children(7, true), None);
    assert!(searches_attributes(&Some(vec![])));
    assert!(!searches_attributes(&None));
    assert_eq!(MAX_PRODUCTS_SEARCH_COUNT, 1000);
}

#[test]
fn category_filter_is_cut_around_the_named_category() {
    assert_eq!(category_source(false, Some(3)), CategorySource::FoundByName);
    assert_eq!(category_source(false, None), CategorySource::FoundByName);
    assert_eq!(category_source(true, Some(3)), CategorySource::AroundCategory(3));
    assert_eq!(category_source(true, None), CategorySource::WholeTree);
    let leaf = CategoryInfo { id: 12, parent_id: Some(4), level: 3, has_children: false };
    assert_eq!(tree_cut(&leaf), TreeCut { keep: 4, keep_depth: 1, clear_below: None });
    let orphan = CategoryInfo { id: 12, parent_id: None, level: 3, has_children: false };
    assert_eq!(tree_cut(&orphan), TreeCut { keep: 0, keep_depth: 1, clear_below: None });
    let branch = CategoryInfo { id: 4, parent_id: Some(1), level: 2, has_children: true };
    assert_eq!(tree_cut(&branch), TreeCut { keep: 4, keep_depth: 1, clear_below: Some(3) });
}

#[test]
fn filters_offer_each_value_once() {
    let occurrences = vec![
        (2, "red".to_string()),
        (1, "xl".to_string()),
        (2, "blue".to_string()),
        (2, "red".to_string()),
        (1, "xl".to_string()),
        (3, "".to_string()),
        (1, "red".to_string()),
    ];
    let filters: Vec<(i32, Vec<String>)> =
        equal_filters(occurrences).into_iter().map(|f| (f.id, f.values)).collect();
    assert_eq!(
        filters,
        vec![
            (2, vec!["red".to_string(), "blue".to_string()]),
            (1, vec!["xl".to_string(), "red".to_string()]),
            (3, vec!["".to_string()]),
        ]
    );
    assert!(equal_filters(vec![]).is_empty());
}

#[test]
fn foreign_subject_may_not_touch_the_base_product() {
    let engine = engine();
    let mut service = BaseProductsService::new(&engine, Some(MOCK_USER_ID + 1));
    assert!(matches!(service.get(1), Err(ServiceError::Unauthorized(_))));
    assert!(matches!(service.list(1, 5), Err(ServiceError::Unauthorized(_))));
    assert!(matches!(service.create(3), Err(ServiceError::Unauthorized(_))));
    assert!(matches!(service.deactivate(1), Err(ServiceError::Unauthorized(_))));
    assert!(matches!(
        service.update(1, create_update_base_product(), "taken"),
        Err(ServiceError::Unauthorized(_))
    ));
    assert_eq!(service.store_counts, None);
}
