//! Stores.  A store names its owner.
use crate::acl::engine::AclPolicy;
use crate::acl::scope::CheckScope;
use crate::models::authorization::Action;
use crate::models::authorization::Resource;
use crate::models::store::NewStore;
use crate::models::store::Store;
use crate::repos::acl::check_all;
use crate::repos::acl::check_row;
use crate::repos::acl::guarded;
use crate::repos::acl::outcome;
use crate::repos::error::RepoResult;
use vstd::prelude::*;

verus! {

/// Guards a store that was read: it is handed out if the subject may read
/// it.
pub fn find<C: CheckScope<Store>>(acl: &AclPolicy, scope_checker: &C, found: Store) -> (r:
    RepoResult<Store>)
    ensures
        outcome(r) == guarded(
            acl.check_spec(Resource::Stores, Action::Read, scope_checker, seq![found]),
            Resource::Stores,
            Action::Read,
            found,
        ),
{
    check_row(acl, Resource::Stores, Action::Read, scope_checker, found)
}

/// Guards a page of stores that was read.
pub fn list<C: CheckScope<Store>>(acl: &AclPolicy, scope_checker: &C, found: Vec<Store>) -> (r:
    RepoResult<Vec<Store>>)
    ensures
        outcome(r) == guarded(
            acl.check_spec(Resource::Stores, Action::Read, scope_checker, found@),
            Resource::Stores,
            Action::Read,
            found,
        ),
{
    check_all(acl, Resource::Stores, Action::Read, scope_checker, found)
}

/// Guards the creation of a store: the payload is handed on to be written
/// if the subject may create it.  Ownership is the owner that the payload
/// declares.
pub fn create<C: CheckScope<NewStore>>(acl: &AclPolicy, scope_checker: &C, payload: NewStore) -> (r:
    RepoResult<NewStore>)
    ensures
        outcome(r) == guarded(
            acl.check_spec(Resource::Stores, Action::Create, scope_checker, seq![payload]),
            Resource::Stores,
            Action::Create,
            payload,
        ),
{
    check_row(acl, Resource::Stores, Action::Create, scope_checker, payload)
}

/// Guards the update of a store.
pub fn update<C: CheckScope<Store>>(acl: &AclPolicy, scope_checker: &C, stored: Store) -> (r:
    RepoResult<Store>)
    ensures
        outcome(r) == guarded(
            acl.check_spec(Resource::Stores, Action::Update, scope_checker, seq![stored]),
            Resource::Stores,
            Action::Update,
            stored,
        ),
{
    check_row(acl, Resource::Stores, Action::Update, scope_checker, stored)
}

/// Guards the deactivation of a store.
pub fn deactivate<C: CheckScope<Store>>(acl: &AclPolicy, scope_checker: &C, stored: Store) -> (r:
    RepoResult<Store>)
    ensures
        outcome(r) == guarded(
            acl.check_spec(Resource::Stores, Action::Delete, scope_checker, seq![stored]),
            Resource::Stores,
            Action::Delete,
            stored,
        ),
{
    check_row(acl, Resource::Stores, Action::Delete, scope_checker, stored)
}

} // verus!
