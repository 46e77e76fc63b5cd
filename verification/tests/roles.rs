use stores_lib::acl::errors::RoleLookupError;
use stores_lib::acl::roles::{RoleAction, RoleCache, RoleEvent};
use stores_lib::models::authorization::Role;

fn used(action: RoleAction) -> Vec<Role> {
    match action {
        RoleAction::Use(roles) => roles,
        other => panic!("expected roles, got {:?}", other),
    }
}

#[test]
fn miss_asks_for_a_fetch() {
    let mut cache = RoleCache::new(60);
    assert_eq!(cache.ttl(), 60);
    assert_eq!(cache.lookup(1, 0), None);
    assert!(matches!(cache.step(RoleEvent::Requested { subject: 1, now: 0 }), RoleAction::Fetch(1)));
}

#[test]
fn fetched_roles_are_used_until_ttl() {
    let mut cache = RoleCache::new(60);
    let roles = vec![Role(1), Role(2)];
    let action = cache.step(RoleEvent::Fetched { subject: 1, now: 100, outcome: Ok(roles.clone()) });
    assert_eq!(used(action), roles);
    for now in [100, 101, 159] {
        assert_eq!(used(cache.step(RoleEvent::Requested { subject: 1, now })), roles);
        assert_eq!(cache.lookup(1, now), Some(roles.clone()));
    }
    for now in [160, 161, 10_000, u64::MAX] {
        assert!(matches!(cache.step(RoleEvent::Requested { subject: 1, now }), RoleAction::Fetch(1)));
        assert_eq!(cache.lookup(1, now), None);
    }
    // an entry from the future of the clock is not used
    assert_eq!(cache.lookup(1, 99), None);
    // other subjects are not answered from this entry
    assert_eq!(cache.lookup(2, 100), None);
}

#[test]
fn revocation_shows_after_ttl() {
    let mut cache = RoleCache::new(30);
    let before = vec![Role(1), Role(7)];
    let after = vec![Role(1)];
    cache.step(RoleEvent::Fetched { subject: 5, now: 1000, outcome: Ok(before.clone()) });
    // revoked at 1010: the stale roles stay in effect for the rest of the window
    assert_eq!(used(cache.step(RoleEvent::Requested { subject: 5, now: 1029 })), before);
    // at the end of the window the cache asks again and takes what the store says
    assert!(matches!(cache.step(RoleEvent::Requested { subject: 5, now: 1030 }), RoleAction::Fetch(5)));
    let refreshed = cache.step(RoleEvent::Fetched { subject: 5, now: 1030, outcome: Ok(after.clone()) });
    assert_eq!(used(refreshed), after);
    assert_eq!(cache.lookup(5, 1031), Some(after));
}

#[test]
fn failed_fetch_fails_and_keeps_the_cache() {
    let mut cache = RoleCache::new(10);
    cache.store(3, vec![Role(9)], 50);
    let action = cache.step(RoleEvent::Fetched {
        subject: 3,
        now: 70,
        outcome: Err(RoleLookupError::StoreUnavailable),
    });
    assert!(matches!(action, RoleAction::Fail(RoleLookupError::StoreUnavailable)));
    assert_eq!(cache.lookup(3, 55), Some(vec![Role(9)]));
    assert_eq!(cache.lookup(3, 70), None);
    let unknown = cache.step(RoleEvent::Fetched {
        subject: 4,
        now: 70,
        outcome: Err(RoleLookupError::UnknownSubject),
    });
    assert!(matches!(unknown, RoleAction::Fail(RoleLookupError::UnknownSubject)));
}

#[test]
fn eviction_forgets_one_subject() {
    let mut cache = RoleCache::new(100);
    cache.store(1, vec![Role(1)], 0);
    cache.store(2, vec![Role(2)], 0);
    cache.evict(1);
    assert_eq!(cache.lookup(1, 1), None);
    assert_eq!(cache.lookup(2, 1), Some(vec![Role(2)]));
    cache.evict(1);
    assert_eq!(cache.lookup(2, 1), Some(vec![Role(2)]));
}

#[test]
fn zero_ttl_caches_nothing() {
    let mut cache = RoleCache::new(0);
    cache.store(1, vec![Role(1)], 10);
    assert_eq!(cache.lookup(1, 10), None);
}

#[test]
fn later_fetch_replaces_earlier() {
    let mut cache = RoleCache::new(100);
    cache.store(1, vec![Role(1)], 0);
    cache.store(1, vec![Role(2), Role(3)], 50);
    assert_eq!(cache.lookup(1, 60), Some(vec![Role(2), Role(3)]));
    assert_eq!(cache.lookup(1, 149), Some(vec![Role(2), Role(3)]));
    assert_eq!(cache.lookup(1, 150), None);
}
