use std::cell::Cell;
use std::time::SystemTime;

use stores_lib::acl::engine::{decide, Acl, AclPolicy, Engine, UnauthorizedAcl};
use stores_lib::acl::errors::{AuthzError, Denial, RoleLookupError, ScopeResolutionError};
use stores_lib::acl::matrix::PermissionMatrix;
use stores_lib::acl::scope::{Candidate, CheckScope, DirectOwner, NoOwner, OwnershipChains};
use stores_lib::models::authorization::{Action, Resource, Role, Rule, Scope};
use stores_lib::models::store::Store;

const ADMIN: Role = Role(1);
const USER: Role = Role(2);
const MODERATOR: Role = Role(3);

fn rule(role: Role, resource: Resource, action: Action, scope: Scope) -> Rule {
    Rule { role, resource, action, scope }
}

fn store(id: i32, user_id: i32) -> Store {
    Store {
        id,
        user_id,
        is_active: true,
        name: format!("store {}", id),
        currency_id: 1,
        short_description: String::new(),
        long_description: None,
        slug: format!("store-{}", id),
        cover: None,
        logo: None,
        phone: String::new(),
        email: String::new(),
        address: String::new(),
        facebook_url: None,
        twitter_url: None,
        instagram_url: None,
        created_at: SystemTime::UNIX_EPOCH,
        updated_at: SystemTime::UNIX_EPOCH,
    }
}

/// A resolver that counts how often it is asked.
struct Counting {
    calls: Cell<u32>,
}

impl CheckScope<Candidate> for Counting {
    fn owns_spec(&self, subject: i32, candidate: &Candidate) -> Result<bool, ScopeResolutionError> {
        Ok(*candidate == Candidate::OwnedBy(subject))
    }

    fn owns(&self, subject: i32, candidate: &Candidate) -> Result<bool, ScopeResolutionError> {
        self.calls.set(self.calls.get() + 1);
        self.owns_spec(subject, candidate)
    }
}

/// A resolver whose reads fail.
struct Broken;

impl CheckScope<Candidate> for Broken {
    fn owns(&self, _subject: i32, _candidate: &Candidate) -> Result<bool, ScopeResolutionError> {
        Err(ScopeResolutionError::LookupFailed)
    }
}

#[test]
fn owner_may_update_own_store_only() {
    let matrix =
        PermissionMatrix::from_rules(&vec![rule(USER, Resource::Stores, Action::Update, Scope::Owned)]);
    let acl = Acl::new(&matrix, 1, vec![USER]);
    let s1 = vec![store(1, 1)];
    let s2 = vec![store(2, 2)];
    assert_eq!(acl.check(Resource::Stores, Action::Update, &DirectOwner, &s1), Ok(()));
    assert_eq!(
        acl.check(Resource::Stores, Action::Update, &DirectOwner, &s2),
        Err(AuthzError::Denied(Denial::NotOwned))
    );
    assert_eq!(acl.check_one(Resource::Stores, Action::Update, &DirectOwner, &s1[0]), Ok(()));
    assert_eq!(
        acl.check_one(Resource::Stores, Action::Update, &DirectOwner, &s2[0]),
        Err(AuthzError::Denied(Denial::NotOwned))
    );
}

#[test]
fn anonymous_reads_public_resources_only() {
    let anonymous = UnauthorizedAcl::new(vec![Resource::Categories, Resource::Products]);
    assert_eq!(anonymous.check(Resource::Categories, Action::Read), Ok(()));
    assert_eq!(
        anonymous.check(Resource::Stores, Action::Create),
        Err(AuthzError::Denied(Denial::Forbidden))
    );
    assert_eq!(
        anonymous.check(Resource::Categories, Action::Update),
        Err(AuthzError::Denied(Denial::Forbidden))
    );
    assert_eq!(
        anonymous.check(Resource::Stores, Action::Read),
        Err(AuthzError::Denied(Denial::Forbidden))
    );
}

#[test]
fn grant_of_all_asks_no_resolver() {
    let matrix = PermissionMatrix::from_rules(&vec![rule(
        ADMIN,
        Resource::Products,
        Action::Delete,
        Scope::All,
    )]);
    let acl = Acl::new(&matrix, 9, vec![ADMIN]);
    let mut batch = Vec::new();
    for i in 0..50 {
        batch.push(Candidate::OfProduct(i));
    }
    let resolver = Counting { calls: Cell::new(0) };
    assert_eq!(acl.check(Resource::Products, Action::Delete, &resolver, &batch), Ok(()));
    assert_eq!(resolver.calls.get(), 0);
    assert_eq!(acl.check(Resource::Products, Action::Delete, &Broken, &batch), Ok(()));
}

#[test]
fn resolver_is_asked_once_for_each_candidate() {
    let matrix =
        PermissionMatrix::from_rules(&vec![rule(USER, Resource::Stores, Action::Read, Scope::Owned)]);
    let acl = Acl::new(&matrix, 4, vec![USER]);
    let batch = vec![Candidate::OwnedBy(4), Candidate::OwnedBy(4), Candidate::OwnedBy(4)];
    let resolver = Counting { calls: Cell::new(0) };
    assert_eq!(acl.check(Resource::Stores, Action::Read, &resolver, &batch), Ok(()));
    assert_eq!(resolver.calls.get(), 3);
}

#[test]
fn role_without_rule_is_forbidden() {
    let matrix =
        PermissionMatrix::from_rules(&vec![rule(USER, Resource::Stores, Action::Read, Scope::All)]);
    let acl = Acl::new(&matrix, 1, vec![MODERATOR]);
    let none: Vec<Store> = Vec::new();
    assert_eq!(
        acl.check(Resource::Stores, Action::Read, &DirectOwner, &none),
        Err(AuthzError::Denied(Denial::Forbidden))
    );
    // no action is inferred from another
    let user = Acl::new(&matrix, 1, vec![USER]);
    assert_eq!(
        user.check(Resource::Stores, Action::Update, &DirectOwner, &vec![store(1, 1)]),
        Err(AuthzError::Denied(Denial::Forbidden))
    );
    // a subject without roles holds no grant
    let nobody = Acl::new(&matrix, 1, vec![]);
    assert_eq!(nobody.granted(Resource::Stores, Action::Read), Scope::NoAccess);
}

#[test]
fn most_permissive_role_decides() {
    let matrix = PermissionMatrix::from_rules(&vec![
        rule(ADMIN, Resource::Stores, Action::Update, Scope::All),
        rule(USER, Resource::Stores, Action::Update, Scope::NoAccess),
    ]);
    let both = Acl::new(&matrix, 1, vec![USER, ADMIN]);
    assert_eq!(both.granted(Resource::Stores, Action::Update), Scope::All);
    assert_eq!(
        both.check(Resource::Stores, Action::Update, &DirectOwner, &vec![store(5, 77)]),
        Ok(())
    );
    let other_order = Acl::new(&matrix, 1, vec![ADMIN, USER]);
    assert_eq!(other_order.granted(Resource::Stores, Action::Update), Scope::All);
}

#[test]
fn one_foreign_candidate_refuses_the_batch() {
    let matrix =
        PermissionMatrix::from_rules(&vec![rule(USER, Resource::Stores, Action::Read, Scope::Owned)]);
    let acl = Acl::new(&matrix, 1, vec![USER]);
    for k in 0..4 {
        let mut batch = Vec::new();
        for i in 0..4 {
            batch.push(store(i, if i == k { 2 } else { 1 }));
        }
        assert_eq!(
            acl.check(Resource::Stores, Action::Read, &DirectOwner, &batch),
            Err(AuthzError::Denied(Denial::NotOwned))
        );
    }
    let own = vec![store(1, 1), store(2, 1), store(3, 1)];
    assert_eq!(acl.check(Resource::Stores, Action::Read, &DirectOwner, &own), Ok(()));
    let none: Vec<Store> = Vec::new();
    assert_eq!(acl.check(Resource::Stores, Action::Read, &DirectOwner, &none), Ok(()));
}

#[test]
fn check_is_repeatable() {
    let matrix =
        PermissionMatrix::from_rules(&vec![rule(USER, Resource::Stores, Action::Read, Scope::Owned)]);
    let acl = Acl::new(&matrix, 1, vec![USER]);
    let batch = vec![store(1, 1), store(2, 2)];
    let first = acl.check(Resource::Stores, Action::Read, &DirectOwner, &batch);
    let second = acl.check(Resource::Stores, Action::Read, &DirectOwner, &batch);
    assert_eq!(first, second);
    assert_eq!(first, Err(AuthzError::Denied(Denial::NotOwned)));
}

#[test]
fn failed_read_is_no_denial() {
    let matrix = PermissionMatrix::from_rules(&vec![rule(
        USER,
        Resource::Products,
        Action::Update,
        Scope::Owned,
    )]);
    let acl = Acl::new(&matrix, 1, vec![USER]);
    let outcome = acl.check(Resource::Products, Action::Update, &Broken, &vec![Candidate::OfProduct(1)]);
    assert_eq!(outcome, Err(AuthzError::ScopeResolution(ScopeResolutionError::LookupFailed)));
    let error = outcome.unwrap_err();
    assert!(!error.is_denial());
    assert!(error.is_retryable());
    assert!(AuthzError::Denied(Denial::NotOwned).is_denial());
    assert!(!AuthzError::Denied(Denial::Forbidden).is_retryable());
}

#[test]
fn decide_reads_answers_in_order() {
    let failed = Err(ScopeResolutionError::LookupFailed);
    assert_eq!(decide(Scope::NoAccess, &vec![Ok(true)]), Err(AuthzError::Denied(Denial::Forbidden)));
    assert_eq!(decide(Scope::All, &vec![Ok(false), failed]), Ok(()));
    assert_eq!(decide(Scope::Owned, &vec![]), Ok(()));
    assert_eq!(decide(Scope::Owned, &vec![Ok(true), Ok(true)]), Ok(()));
    assert_eq!(
        decide(Scope::Owned, &vec![Ok(true), Ok(false), failed]),
        Err(AuthzError::Denied(Denial::NotOwned))
    );
    assert_eq!(
        decide(Scope::Owned, &vec![Ok(true), failed, Ok(false)]),
        Err(AuthzError::ScopeResolution(ScopeResolutionError::LookupFailed))
    );
}

#[test]
fn engine_judges_by_subject() {
    let engine = Engine::new(
        &vec![
            rule(USER, Resource::Stores, Action::Update, Scope::Owned),
            rule(ADMIN, Resource::Stores, Action::Update, Scope::All),
        ],
        vec![Resource::Categories],
    );
    let stores = vec![store(1, 1)];
    let user_roles = Ok(vec![USER]);
    assert_eq!(
        engine.check(Some(1), &user_roles, Resource::Stores, Action::Update, &DirectOwner, &stores),
        Ok(())
    );
    assert_eq!(
        engine.check(Some(2), &user_roles, Resource::Stores, Action::Update, &DirectOwner, &stores),
        Err(AuthzError::Denied(Denial::NotOwned))
    );
    assert_eq!(
        engine.check(Some(2), &Ok(vec![ADMIN]), Resource::Stores, Action::Update, &DirectOwner, &stores),
        Ok(())
    );
    assert_eq!(
        engine.check(None, &user_roles, Resource::Stores, Action::Update, &DirectOwner, &stores),
        Err(AuthzError::Denied(Denial::Forbidden))
    );
    assert_eq!(
        engine.check(None, &user_roles, Resource::Categories, Action::Read, &NoOwner, &stores),
        Ok(())
    );
    for failure in [RoleLookupError::UnknownSubject, RoleLookupError::StoreUnavailable] {
        assert_eq!(
            engine.check(Some(1), &Err(failure), Resource::Stores, Action::Update, &DirectOwner, &stores),
            Err(AuthzError::RoleLookup(failure))
        );
    }
}

#[test]
fn policy_is_chosen_by_subject() {
    let engine = Engine::new(
        &vec![rule(USER, Resource::Stores, Action::Read, Scope::All)],
        vec![Resource::Categories],
    );
    let stores = vec![store(1, 1)];
    let authenticated = engine.policy(Some(1), vec![USER]);
    assert!(matches!(authenticated, AclPolicy::Authenticated(_)));
    assert_eq!(authenticated.check(Resource::Stores, Action::Read, &DirectOwner, &stores), Ok(()));
    let anonymous = engine.policy(None, vec![USER]);
    assert!(matches!(anonymous, AclPolicy::Anonymous(_)));
    assert_eq!(
        anonymous.check(Resource::Stores, Action::Read, &DirectOwner, &stores),
        Err(AuthzError::Denied(Denial::Forbidden))
    );
    assert_eq!(anonymous.check_one(Resource::Categories, Action::Read, &NoOwner, &stores[0]), Ok(()));
}

#[test]
fn unowned_resource_needs_all() {
    let matrix = PermissionMatrix::from_rules(&vec![
        rule(USER, Resource::Attributes, Action::Update, Scope::Owned),
        rule(ADMIN, Resource::Attributes, Action::Update, Scope::All),
    ]);
    let attribute = vec![Candidate::Unowned];
    let user = Acl::new(&matrix, 1, vec![USER]);
    assert_eq!(
        user.check(Resource::Attributes, Action::Update, &NoOwner, &attribute),
        Err(AuthzError::Denied(Denial::NotOwned))
    );
    let admin = Acl::new(&matrix, 1, vec![ADMIN]);
    assert_eq!(admin.check(Resource::Attributes, Action::Update, &NoOwner, &attribute), Ok(()));
}

#[test]
fn product_is_owned_through_base_product_and_store() {
    let mut chains = OwnershipChains::new();
    chains.add_store(10, 1);
    chains.add_store(20, 2);
    chains.add_base_product(100, 10);
    chains.add_base_product(200, 20);
    chains.add_base_product(300, 99);
    chains.add_product(1000, 100);
    chains.add_product(2000, 200);
    chains.add_product(3000, 300);
    chains.add_product(4000, 999);
    assert_eq!(chains.owner(&Candidate::OfProduct(1000)), Some(1));
    assert_eq!(chains.owner(&Candidate::OfProduct(2000)), Some(2));
    assert_eq!(chains.owner(&Candidate::OfProduct(3000)), None);
    assert_eq!(chains.owner(&Candidate::OfProduct(4000)), None);
    assert_eq!(chains.owner(&Candidate::OfProduct(5000)), None);
    assert_eq!(chains.owner(&Candidate::OfBaseProduct(100)), Some(1));
    assert_eq!(chains.owner(&Candidate::InStore(20)), Some(2));
    assert_eq!(chains.owner(&Candidate::OwnedBy(7)), Some(7));
    assert_eq!(chains.owner(&Candidate::Unowned), None);
    assert_eq!(chains.owns(1, &Candidate::OfProduct(1000)), Ok(true));
    assert_eq!(chains.owns(2, &Candidate::OfProduct(1000)), Ok(false));
    // a dangling reference denies and is no error
    assert_eq!(chains.owns(1, &Candidate::OfProduct(3000)), Ok(false));
    assert_eq!(chains.owns(1, &Candidate::OfProduct(4000)), Ok(false));

    let matrix = PermissionMatrix::from_rules(&vec![rule(
        USER,
        Resource::Products,
        Action::Update,
        Scope::Owned,
    )]);
    let acl = Acl::new(&matrix, 1, vec![USER]);
    assert_eq!(
        acl.check(Resource::Products, Action::Update, &chains, &vec![Candidate::OfProduct(1000)]),
        Ok(())
    );
    assert_eq!(
        acl.check(
            Resource::Products,
            Action::Update,
            &chains,
            &vec![Candidate::OfProduct(1000), Candidate::OfProduct(3000)]
        ),
        Err(AuthzError::Denied(Denial::NotOwned))
    );
}
