//! Product variants.  A variant is owned through its base product and that
//! product's store.
use crate::acl::engine::AclPolicy;
use crate::acl::scope::CheckScope;
use crate::models::authorization::Action;
use crate::models::authorization::Resource;
use crate::repos::acl::check_all;
use crate::repos::acl::check_row;
use crate::repos::acl::guarded;
use crate::repos::acl::outcome;
use crate::repos::error::RepoResult;
use vstd::prelude::*;

verus! {

/// Guards a variant that was read: it is handed out if the subject may read
/// it.
pub fn find<T, C: CheckScope<T>>(acl: &AclPolicy, scope_checker: &C, found: T) -> (r: RepoResult<T>)
    ensures
        outcome(r) == guarded(
            acl.check_spec(Resource::Products, Action::Read, scope_checker, seq![found]),
            Resource::Products,
            Action::Read,
            found,
        ),
{
    check_row(acl, Resource::Products, Action::Read, scope_checker, found)
}

/// Guards the creation of a variant: the payload is handed on to be written
/// if the subject may create it.  Ownership is that of the base product that
/// the payload names.
pub fn create<T, C: CheckScope<T>>(acl: &AclPolicy, scope_checker: &C, payload: T) -> (r:
    RepoResult<T>)
    ensures
        outcome(r) == guarded(
            acl.check_spec(Resource::Products, Action::Create, scope_checker, seq![payload]),
            Resource::Products,
            Action::Create,
            payload,
        ),
{
    check_row(acl, Resource::Products, Action::Create, scope_checker, payload)
}

/// Guards a page of variants that was read: the page is handed out if the
/// subject may read every variant on it.
pub fn list<T, C: CheckScope<T>>(acl: &AclPolicy, scope_checker: &C, found: Vec<T>) -> (r:
    RepoResult<Vec<T>>)
    ensures
        outcome(r) == guarded(
            acl.check_spec(Resource::Products, Action::Read, scope_checker, found@),
            Resource::Products,
            Action::Read,
            found,
        ),
{
    check_all(acl, Resource::Products, Action::Read, scope_checker, found)
}

/// Guards the update of a variant: the variant as it is stored is handed on,
/// and the update may be carried out, if the subject may update it.
pub fn update<T, C: CheckScope<T>>(acl: &AclPolicy, scope_checker: &C, stored: T) -> (r:
    RepoResult<T>)
    ensures
        outcome(r) == guarded(
            acl.check_spec(Resource::Products, Action::Update, scope_checker, seq![stored]),
            Resource::Products,
            Action::Update,
            stored,
        ),
{
    check_row(acl, Resource::Products, Action::Update, scope_checker, stored)
}

/// Guards the deactivation of a variant: the variant as it is stored is
/// handed on, and it may be deactivated, if the subject may delete it.
pub fn deactivate<T, C: CheckScope<T>>(acl: &AclPolicy, scope_checker: &C, stored: T) -> (r:
    RepoResult<T>)
    ensures
        outcome(r) == guarded(
            acl.check_spec(Resource::Products, Action::Delete, scope_checker, seq![stored]),
            Resource::Products,
            Action::Delete,
            stored,
        ),
{
    check_row(acl, Resource::Products, Action::Delete, scope_checker, stored)
}

} // verus!
