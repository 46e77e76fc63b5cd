//! Attributes of categories.  They have no owner: a role reaches them only
//! with a grant of `All`.
use crate::acl::engine::AclPolicy;
use crate::acl::scope::unowned_in_scope;
use crate::acl::scope::CheckScope;
use crate::models::authorization::Action;
use crate::models::authorization::Resource;
use crate::models::authorization::Scope;
use crate::models::authorization::SubjectId;
use crate::models::category_attribute::CatAttr;
use crate::models::category_attribute::NewCatAttr;
use crate::models::category_attribute::OldCatAttr;
use crate::repos::acl::check_all;
use crate::repos::acl::check_row;
use crate::repos::acl::guarded;
use crate::repos::acl::outcome;
use crate::repos::error::RepoResult;
use vstd::prelude::*;

verus! {

/// Whether an attribute of a category lies within `scope`: within `All`
/// only, whoever asks and whichever attribute it is.
pub fn is_in_scope(_user_id: SubjectId, scope: &Scope, _obj: Option<&CatAttr>) -> (r: bool)
    ensures
        r == unowned_in_scope(*scope),
{
    match *scope {
        Scope::All => true,
        Scope::Owned => false,
        Scope::NoAccess => false,
    }
}

/// Guards the attributes that were read for a category: they are handed out
/// if the subject may read them all.
pub fn find_all_attributes<C: CheckScope<CatAttr>>(
    acl: &AclPolicy,
    scope_checker: &C,
    found: Vec<CatAttr>,
) -> (r: RepoResult<Vec<CatAttr>>)
    ensures
        outcome(r) == guarded(
            acl.check_spec(Resource::CategoryAttributes, Action::Read, scope_checker, found@),
            Resource::CategoryAttributes,
            Action::Read,
            found,
        ),
{
    check_all(acl, Resource::CategoryAttributes, Action::Read, scope_checker, found)
}

/// Guards the creation of a category's attribute: the payload is handed on
/// to be written if the subject may create it.
pub fn create<C: CheckScope<NewCatAttr>>(acl: &AclPolicy, scope_checker: &C, payload: NewCatAttr)
    -> (r: RepoResult<NewCatAttr>)
    ensures
        outcome(r) == guarded(
            acl.check_spec(
                Resource::CategoryAttributes,
                Action::Create,
                scope_checker,
                seq![payload],
            ),
            Resource::CategoryAttributes,
            Action::Create,
            payload,
        ),
{
    check_row(acl, Resource::CategoryAttributes, Action::Create, scope_checker, payload)
}

/// Guards the removal of a category's attribute: the payload is handed on
/// to be carried out if the subject may delete what it names.
pub fn delete<C: CheckScope<OldCatAttr>>(acl: &AclPolicy, scope_checker: &C, payload: OldCatAttr)
    -> (r: RepoResult<OldCatAttr>)
    ensures
        outcome(r) == guarded(
            acl.check_spec(
                Resource::CategoryAttributes,
                Action::Delete,
                scope_checker,
                seq![payload],
            ),
            Resource::CategoryAttributes,
            Action::Delete,
            payload,
        ),
{
    check_row(acl, Resource::CategoryAttributes, Action::Delete, scope_checker, payload)
}

} // verus!
