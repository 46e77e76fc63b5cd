use std::time::SystemTime;

use stores_lib::acl::engine::{AclPolicy, Engine};
use stores_lib::acl::scope::DirectOwner;
use stores_lib::models::authorization::{Action, Resource, Role, Rule, Scope};
use stores_lib::models::store::{NewStore, Store, UpdateStore};
use stores_lib::repos;
use stores_lib::repos::error::RepoError;
use stores_lib::services::cart::group_by_key;
use stores_lib::services::error::ServiceError;
use stores_lib::services::stores::{create, update, CreateAction, CreateEvent, UpdateAction, UpdateEvent};

const MOCK_USER_ID: i32 = 1;
const USER: Role = Role(1);
const MOCK_STORE_NAME: &str = "store";
const MOCK_STORE_NAME_EXISTED: &str = "existed";
const MOCK_STORE_SLUG_EXISTED: &str = "taken";

fn engine() -> Engine {
    let rules = [Action::Create, Action::Read, Action::Update, Action::Delete]
        .iter()
        .map(|action| Rule { role: USER, resource: Resource::Stores, action: *action, scope: Scope::Owned })
        .collect();
    Engine::new(&rules, vec![])
}

fn create_store(id: i32, name: String) -> Store {
    Store {
        id,
        user_id: MOCK_USER_ID,
        is_active: true,
        name,
        currency_id: 1,
        short_description: "short description".to_string(),
        long_description: None,
        slug: "slug".to_string(),
        cover: None,
        logo: None,
        phone: "1234567".to_string(),
        email: "example@mail.com".to_string(),
        address: "town city street".to_string(),
        facebook_url: None,
        twitter_url: None,
        instagram_url: None,
        created_at: SystemTime::UNIX_EPOCH,
        updated_at: SystemTime::UNIX_EPOCH,
    }
}

fn create_new_store(name: &str) -> NewStore {
    NewStore {
        name: name.to_string(),
        user_id: MOCK_USER_ID,
        currency_id: 1,
        short_description: "short description".to_string(),
        long_description: None,
        slug: "slug".to_string(),
        cover: None,
        logo: None,
        phone: "1234567".to_string(),
        email: "example@mail.com".to_string(),
        address: "town city street".to_string(),
        facebook_url: None,
        twitter_url: None,
        instagram_url: None,
    }
}

fn create_update_store(name: &str) -> UpdateStore {
    UpdateStore {
        name: name.to_string(),
        currency_id: None,
        short_description: None,
        long_description: None,
        slug: None,
        cover: None,
        logo: None,
        phone: None,
        email: None,
        address: None,
        facebook_url: None,
        twitter_url: None,
        instagram_url: None,
    }
}

/// Stands in for the service: it does what the library says to do next, on
/// storage that is made up on the spot.
struct StoresService<'a> {
    acl: AclPolicy<'a>,
}

impl<'a> StoresService<'a> {
    fn new(engine: &'a Engine, user_id: Option<i32>) -> Self {
        StoresService { acl: engine.policy(user_id, vec![USER]) }
    }

    fn get(&self, store_id: i32) -> Result<Store, ServiceError> {
        let found = create_store(store_id, MOCK_STORE_NAME.to_string());
        repos::stores::find(&self.acl, &DirectOwner, found).map_err(ServiceError::from)
    }

    fn list(&self, from: i32, count: i32) -> Result<Vec<Store>, ServiceError> {
        let found = (from..from + count).map(|id| create_store(id, MOCK_STORE_NAME.to_string())).collect();
        repos::stores::list(&self.acl, &DirectOwner, found).map_err(ServiceError::from)
    }

    fn deactivate(&self, store_id: i32) -> Result<Store, ServiceError> {
        let stored = create_store(store_id, MOCK_STORE_NAME.to_string());
        let mut store =
            repos::stores::deactivate(&self.acl, &DirectOwner, stored).map_err(ServiceError::from)?;
        store.is_active = false;
        Ok(store)
    }

    fn create(&self, payload: NewStore) -> Result<Store, ServiceError> {
        let mut event = CreateEvent::NameParsed { failure: None };
        let mut written = None;
        loop {
            match create(event)? {
                CreateAction::LookUpName => {
                    event = CreateEvent::NameLookedUp { exists: payload.name == MOCK_STORE_NAME_EXISTED };
                }
                CreateAction::LookUpSlug => {
                    event = CreateEvent::SlugLookedUp { exists: payload.slug == MOCK_STORE_SLUG_EXISTED };
                }
                CreateAction::Write => {
                    let payload = repos::stores::create(&self.acl, &DirectOwner, payload.clone())
                        .map_err(ServiceError::from)?;
                    let mut store = create_store(1, payload.name);
                    store.user_id = payload.user_id;
                    store.slug = payload.slug;
                    written = Some(store);
                    event = CreateEvent::Written;
                }
                CreateAction::Finish => return Ok(written.expect("a store was written")),
            }
        }
    }

    fn update(&self, store_id: i32, payload: UpdateStore) -> Result<Store, ServiceError> {
        let stored = create_store(store_id, MOCK_STORE_NAME.to_string());
        let mut event = UpdateEvent::Found { slug: stored.slug.clone() };
        let mut updated = None;
        loop {
            match update(&payload.slug, &event)? {
                UpdateAction::LookUpSlug => {
                    let exists = payload.slug.as_deref() == Some(MOCK_STORE_SLUG_EXISTED);
                    event = UpdateEvent::SlugLookedUp { exists };
                }
                UpdateAction::Write => {
                    let mut store = repos::stores::update(&self.acl, &DirectOwner, stored.clone())
                        .map_err(ServiceError::from)?;
                    store.name = payload.name.clone();
                    if let Some(slug) = &payload.slug {
                        store.slug = slug.clone();
                    }
                    updated = Some(store);
                    event = UpdateEvent::Written;
                }
                UpdateAction::Finish => return Ok(updated.expect("the store was written")),
            }
        }
    }
}

#[test]
fn test_get_store() {
    let engine = engine();
    let service = StoresService::new(&engine, Some(MOCK_USER_ID));
    let result = service.get(1).unwrap();
    assert_eq!(result.id, 1);
}

#[test]
fn test_create_allready_existed() {
    let engine = engine();
    let service = StoresService::new(&engine, Some(MOCK_USER_ID));
    let new_store = create_new_store(MOCK_STORE_NAME_EXISTED);
    let result = service.create(new_store);
    assert_eq!(result.is_err(), true);
}

#[test]
fn stores_test_list() {
    let engine = engine();
    let service = StoresService::new(&engine, Some(MOCK_USER_ID));
    let result = service.list(1, 5).unwrap();
    assert_eq!(result.len(), 5);
}

#[test]
fn test_create_store() {
    let engine = engine();
    let service = StoresService::new(&engine, Some(MOCK_USER_ID));
    let new_store = create_new_store(MOCK_STORE_NAME);
    let result = service.create(new_store).unwrap();
    assert_eq!(result.name, MOCK_STORE_NAME);
}

#[test]
fn stores_test_update() {
    let engine = engine();
    let service = StoresService::new(&engine, Some(MOCK_USER_ID));
    let new_store = create_update_store(MOCK_STORE_NAME);
    let result = service.update(1, new_store).unwrap();
    assert_eq!(result.id, 1);
    assert_eq!(result.name, MOCK_STORE_NAME);
}

#[test]
fn stores_test_deactivate() {
    let engine = engine();
    let service = StoresService::new(&engine, Some(MOCK_USER_ID));
    let result = service.deactivate(1).unwrap();
    assert_eq!(result.id, 1);
    assert_eq!(result.is_active, false);
}

#[test]
fn test_find() {
    let engine = Engine::new(
        &vec![Rule { role: USER, resource: Resource::Stores, action: Action::Read, scope: Scope::All }],
        vec![],
    );
    let acl = engine.policy(Some(MOCK_USER_ID), vec![USER]);
    let res = repos::stores::find(&acl, &DirectOwner, create_store(1, MOCK_STORE_NAME.to_string()));
    assert_eq!(res.map(|store| store.id).ok(), Some(1));
}

#[test]
fn taken_name_is_reported_before_taken_slug() {
    let engine = engine();
    let service = StoresService::new(&engine, Some(MOCK_USER_ID));
    let mut both = create_new_store(MOCK_STORE_NAME_EXISTED);
    both.slug = MOCK_STORE_SLUG_EXISTED.to_string();
    match service.create(both) {
        Err(ServiceError::Validate(errors)) => {
            let by_field = errors.field_errors();
            assert_eq!(by_field.len(), 1);
            let of_name = by_field.get("name").expect("the name is reported");
            assert_eq!(of_name[0].code, "name");
            assert_eq!(of_name[0].message.as_deref(), Some("Store with this name already exists"));
        }
        other => panic!("expected a validation failure, got {:?}", other.map(|s| s.id)),
    }
    let mut slug = create_new_store(MOCK_STORE_NAME);
    slug.slug = MOCK_STORE_SLUG_EXISTED.to_string();
    match service.create(slug) {
        Err(ServiceError::Validate(errors)) => {
            let by_field = errors.field_errors();
            let of_slug = by_field.get("slug").expect("the slug is reported");
            assert_eq!(of_slug[0].code, "slug");
            assert_eq!(of_slug[0].message.as_deref(), Some("Store with this slug already exists"));
        }
        other => panic!("expected a validation failure, got {:?}", other.map(|s| s.id)),
    }
}

#[test]
fn store_create_steps() {
    assert!(matches!(create(CreateEvent::NameParsed { failure: None }), Ok(CreateAction::LookUpName)));
    assert!(matches!(
        create(CreateEvent::NameParsed { failure: Some("expected a list".to_string()) }),
        Err(ServiceError::Parse(reason)) if reason == "expected a list"
    ));
    assert!(matches!(create(CreateEvent::NameLookedUp { exists: false }), Ok(CreateAction::LookUpSlug)));
    assert!(matches!(create(CreateEvent::SlugLookedUp { exists: false }), Ok(CreateAction::Write)));
    assert!(matches!(create(CreateEvent::Written), Ok(CreateAction::Finish)));
}

#[test]
fn update_looks_up_a_slug_that_changes() {
    let found = UpdateEvent::Found { slug: "slug".to_string() };
    assert!(matches!(update(&None, &found), Ok(UpdateAction::Write)));
    assert!(matches!(update(&Some("slug".to_string()), &found), Ok(UpdateAction::Write)));
    assert!(matches!(update(&Some("other".to_string()), &found), Ok(UpdateAction::LookUpSlug)));
    let asked = Some("other".to_string());
    assert!(matches!(update(&asked, &UpdateEvent::SlugLookedUp { exists: false }), Ok(UpdateAction::Write)));
    assert!(matches!(
        update(&asked, &UpdateEvent::SlugLookedUp { exists: true }),
        Err(ServiceError::Validate(_))
    ));
    assert!(matches!(update(&asked, &UpdateEvent::Written), Ok(UpdateAction::Finish)));
    let engine = engine();
    let service = StoresService::new(&engine, Some(MOCK_USER_ID));
    let mut payload = create_update_store(MOCK_STORE_NAME);
    payload.slug = Some(MOCK_STORE_SLUG_EXISTED.to_string());
    assert!(matches!(service.update(1, payload), Err(ServiceError::Validate(_))));
}

#[test]
fn foreign_subject_may_not_touch_the_store() {
    let engine = engine();
    let service = StoresService::new(&engine, Some(MOCK_USER_ID + 1));
    assert!(matches!(service.get(1), Err(ServiceError::Unauthorized(_))));
    assert!(matches!(service.list(1, 5), Err(ServiceError::Unauthorized(_))));
    assert!(matches!(service.deactivate(1), Err(ServiceError::Unauthorized(_))));
    assert!(matches!(
        service.create(create_new_store(MOCK_STORE_NAME)),
        Err(ServiceError::Unauthorized(_))
    ));
    let anonymous = StoresService::new(&engine, None);
    assert!(matches!(anonymous.get(1), Err(ServiceError::Unauthorized(_))));
    let acl = engine.policy(Some(MOCK_USER_ID + 1), vec![USER]);
    assert!(matches!(
        repos::stores::find(&acl, &DirectOwner, create_store(1, String::new())),
        Err(RepoError::Unauthorized(Resource::Stores, Action::Read))
    ));
}

#[test]
fn cart_is_grouped_by_key() {
    let groups = group_by_key(vec![(2, "a"), (1, "b"), (2, "c"), (3, "d"), (1, "e"), (2, "f")]);
    let shape: Vec<(i32, Vec<&str>)> = groups.into_iter().map(|g| (g.key, g.items)).collect();
    assert_eq!(shape, vec![(2, vec!["a", "c", "f"]), (1, vec!["b", "e"]), (3, vec!["d"])]);
    let none: Vec<(i32, u8)> = Vec::new();
    assert!(group_by_key(none).is_empty());
    let one = group_by_key(vec![(i32::MIN, 1u8)]);
    assert_eq!(one.len(), 1);
    assert_eq!(one[0].key, i32::MIN);
    assert_eq!(one[0].items, vec![1u8]);
}
