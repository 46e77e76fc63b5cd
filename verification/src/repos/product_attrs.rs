//! Values of attributes on product variants.  A value is owned through the
//! base product that its variant belongs to, and through that product's
//! store.
use crate::acl::engine::AclPolicy;
use crate::acl::errors::ScopeResolutionError;
use crate::acl::scope::resolve_lookup;
use crate::acl::scope::resolve_lookup_spec;
use crate::acl::scope::scope_query;
use crate::acl::scope::scope_query_spec;
use crate::acl::scope::Candidate;
use crate::acl::scope::CheckScope;
use crate::acl::scope::OwnerLookup;
use crate::acl::scope::ScopeQuery;
use crate::models::authorization::Action;
use crate::models::authorization::Resource;
use crate::models::authorization::Scope;
use crate::models::authorization::SubjectId;
use crate::models::product_attr::AttributeId;
use crate::models::product_attr::AttributeValueId;
use crate::models::product_attr::ProdAttr;
use crate::repos::acl::check_all;
use crate::repos::acl::check_row;
use crate::repos::acl::guarded;
use crate::repos::acl::outcome;
use crate::repos::error::RepoResult;
use vstd::prelude::*;

verus! {

/// What to look for among the values of attributes.
#[derive(Debug, Clone, Copy, PartialEq, Eq, Structural)]
pub struct ProductAttrsSearchTerms {
    pub attr_id: Option<AttributeId>,
    pub attr_value_id: Option<AttributeValueId>,
}

impl ProductAttrsSearchTerms {
    /// Terms that every value meets.
    pub fn any() -> (terms: ProductAttrsSearchTerms)
        ensures
            terms.attr_id is None,
            terms.attr_value_id is None,
    {
        ProductAttrsSearchTerms { attr_id: None, attr_value_id: None }
    }

    /// Whether a value meets the terms: each term that is given has to be
    /// met, and a term that is not given is met by every value.
    pub open spec fn matches_spec(&self, row: &ProdAttr) -> bool {
        &&& self.attr_id matches Some(attr_id) ==> row.attr_id == attr_id
        &&& self.attr_value_id matches Some(attr_value_id) ==> row.attr_value_id == Some(
            attr_value_id,
        )
    }

    /// Whether a value meets the terms.
    pub fn matches(&self, row: &ProdAttr) -> (r: bool)
        ensures
            r == self.matches_spec(row),
    {
        let attr_ok = match self.attr_id {
            Some(attr_id) => row.attr_id == attr_id,
            None => true,
        };
        let value_ok = match self.attr_value_id {
            Some(attr_value_id) => match row.attr_value_id {
                Some(held) => held == attr_value_id,
                None => false,
            },
            None => true,
        };
        attr_ok && value_ok
    }
}

/// The candidate that stands for a value of an attribute: an entity of the
/// value's base product.
pub open spec fn candidate_spec(row: &ProdAttr) -> Candidate {
    Candidate::OfBaseProduct(row.base_prod_id)
}

/// The candidate that stands for a value of an attribute.
pub fn candidate(row: &ProdAttr) -> (c: Candidate)
    ensures
        c == candidate_spec(row),
{
    Candidate::OfBaseProduct(row.base_prod_id)
}

/// What is left to do to place a value within `scope`: nothing under `All`
/// and `NoAccess`, nothing without a value, and else to find the owner of the
/// store of the value's base product.
pub fn scope_lookup(scope: &Scope, obj: Option<&ProdAttr>) -> (query: ScopeQuery)
    ensures
        query == scope_query_spec(
            *scope,
            match obj {
                Some(row) => Some(row.base_prod_id),
                None => None,
            },
        ),
{
    let parent = match obj {
        Some(row) => Some(row.base_prod_id),
        None => None,
    };
    scope_query(*scope, parent)
}

/// Whether a value lies within `scope` for the subject `user_id`, given what
/// the read of its store's owner came back with.  Under `Owned` the subject
/// has to be that owner; a base product or a store that is missing places
/// the value out of scope; a read that failed is an error.  The read's
/// outcome plays no part where the scope alone settles the answer.
pub fn is_in_scope(
    user_id: SubjectId,
    scope: &Scope,
    obj: Option<&ProdAttr>,
    store_owner: OwnerLookup,
) -> (r: Result<bool, ScopeResolutionError>)
    ensures
        r == match scope_query_spec(
            *scope,
            match obj {
                Some(row) => Some(row.base_prod_id),
                None => None,
            },
        ) {
            ScopeQuery::Decided(answer) => Ok(answer),
            ScopeQuery::Lookup(_) => resolve_lookup_spec(store_owner, user_id),
        },
{
    match scope_lookup(scope, obj) {
        ScopeQuery::Decided(answer) => Ok(answer),
        ScopeQuery::Lookup(_) => resolve_lookup(store_owner, user_id),
    }
}

/// Guards values that were read, by product variant, by base product or by
/// search terms: they are handed out if the subject may read them all.
pub fn find_all_attributes<C: CheckScope<ProdAttr>>(
    acl: &AclPolicy,
    scope_checker: &C,
    found: Vec<ProdAttr>,
) -> (r: RepoResult<Vec<ProdAttr>>)
    ensures
        outcome(r) == guarded(
            acl.check_spec(Resource::ProductAttributes, Action::Read, scope_checker, found@),
            Resource::ProductAttributes,
            Action::Read,
            found,
        ),
{
    check_all(acl, Resource::ProductAttributes, Action::Read, scope_checker, found)
}

/// Guards the values that were read for a base product.
pub fn find_all_attributes_by_base<C: CheckScope<ProdAttr>>(
    acl: &AclPolicy,
    scope_checker: &C,
    found: Vec<ProdAttr>,
) -> (r: RepoResult<Vec<ProdAttr>>)
    ensures
        outcome(r) == guarded(
            acl.check_spec(Resource::ProductAttributes, Action::Read, scope_checker, found@),
            Resource::ProductAttributes,
            Action::Read,
            found,
        ),
{
    check_all(acl, Resource::ProductAttributes, Action::Read, scope_checker, found)
}

/// Guards the values that a search found.
pub fn find_many<C: CheckScope<ProdAttr>>(
    acl: &AclPolicy,
    scope_checker: &C,
    found: Vec<ProdAttr>,
) -> (r: RepoResult<Vec<ProdAttr>>)
    ensures
        outcome(r) == guarded(
            acl.check_spec(Resource::ProductAttributes, Action::Read, scope_checker, found@),
            Resource::ProductAttributes,
            Action::Read,
            found,
        ),
{
    check_all(acl, Resource::ProductAttributes, Action::Read, scope_checker, found)
}

/// Guards a value that was written inside the transaction: it is handed out,
/// and the transaction may commit, if the subject may create it.
pub fn create<C: CheckScope<ProdAttr>>(acl: &AclPolicy, scope_checker: &C, written: ProdAttr) -> (r:
    RepoResult<ProdAttr>)
    ensures
        outcome(r) == guarded(
            acl.check_spec(
                Resource::ProductAttributes,
                Action::Create,
                scope_checker,
                seq![written],
            ),
            Resource::ProductAttributes,
            Action::Create,
            written,
        ),
{
    check_row(acl, Resource::ProductAttributes, Action::Create, scope_checker, written)
}

/// Guards the update of a value: the value as it is stored is handed on, and
/// the update may be carried out, if the subject may update it.
pub fn update<C: CheckScope<ProdAttr>>(acl: &AclPolicy, scope_checker: &C, stored: ProdAttr) -> (r:
    RepoResult<ProdAttr>)
    ensures
        outcome(r) == guarded(
            acl.check_spec(
                Resource::ProductAttributes,
                Action::Update,
                scope_checker,
                seq![stored],
            ),
            Resource::ProductAttributes,
            Action::Update,
            stored,
        ),
{
    check_row(acl, Resource::ProductAttributes, Action::Update, scope_checker, stored)
}

/// Guards the removal of all values of a product variant: the rows that the
/// removal touches are handed out, and the transaction may commit, if the
/// subject may delete them all.
pub fn delete_all_attributes<C: CheckScope<ProdAttr>>(
    acl: &AclPolicy,
    scope_checker: &C,
    touched: Vec<ProdAttr>,
) -> (r: RepoResult<Vec<ProdAttr>>)
    ensures
        outcome(r) == guarded(
            acl.check_spec(Resource::ProductAttributes, Action::Delete, scope_checker, touched@),
            Resource::ProductAttributes,
            Action::Delete,
            touched,
        ),
{
    check_all(acl, Resource::ProductAttributes, Action::Delete, scope_checker, touched)
}

/// Guards the removal of the values of a product variant that are not on a
/// list.
pub fn delete_all_attributes_not_in_list<C: CheckScope<ProdAttr>>(
    acl: &AclPolicy,
    scope_checker: &C,
    touched: Vec<ProdAttr>,
) -> (r: RepoResult<Vec<ProdAttr>>)
    ensures
        outcome(r) == guarded(
            acl.check_spec(Resource::ProductAttributes, Action::Delete, scope_checker, touched@),
            Resource::ProductAttributes,
            Action::Delete,
            touched,
        ),
{
    check_all(acl, Resource::ProductAttributes, Action::Delete, scope_checker, touched)
}

/// Guards the removal of one value.
pub fn delete<C: CheckScope<ProdAttr>>(acl: &AclPolicy, scope_checker: &C, touched: ProdAttr) -> (r:
    RepoResult<ProdAttr>)
    ensures
        outcome(r) == guarded(
            acl.check_spec(
                Resource::ProductAttributes,
                Action::Delete,
                scope_checker,
                seq![touched],
            ),
            Resource::ProductAttributes,
            Action::Delete,
            touched,
        ),
{
    check_row(acl, Resource::ProductAttributes, Action::Delete, scope_checker, touched)
}

/// Guards the removal of the values of one attribute on a base product:
/// the removal stands if the subject may delete every row that it touches.
pub fn delete_by_attribute_id<C: CheckScope<ProdAttr>>(
    acl: &AclPolicy,
    scope_checker: &C,
    touched: Vec<ProdAttr>,
) -> (r: RepoResult<()>)
    ensures
        outcome(r) == guarded(
            acl.check_spec(Resource::ProductAttributes, Action::Delete, scope_checker, touched@),
            Resource::ProductAttributes,
            Action::Delete,
            (),
        ),
{
    match check_all(acl, Resource::ProductAttributes, Action::Delete, scope_checker, touched) {
        Ok(_) => Ok(()),
        Err(e) => Err(e),
    }
}

/// Guards the removal of all values on a base product: the rows are read
/// first, and the removal is carried out if the subject may delete them all.
pub fn delete_by_base_product_id<C: CheckScope<ProdAttr>>(
    acl: &AclPolicy,
    scope_checker: &C,
    found: Vec<ProdAttr>,
) -> (r: RepoResult<()>)
    ensures
        outcome(r) == guarded(
            acl.check_spec(Resource::ProductAttributes, Action::Delete, scope_checker, found@),
            Resource::ProductAttributes,
            Action::Delete,
            (),
        ),
{
    match check_all(acl, Resource::ProductAttributes, Action::Delete, scope_checker, found) {
        Ok(_) => Ok(()),
        Err(e) => Err(e),
    }
}

} // verus!
