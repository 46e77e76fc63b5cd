//! How a repository asks the engine.
//!
//! A repository asks before it hands out what it has read and before it
//! commits what it writes.  For a read the candidates are the rows read; for
//! a write of a new row the candidate is the payload.  A refusal comes back
//! as `Unauthorized` with the resource and the action, and says nothing about
//! the rows.
use crate::acl::engine::AclPolicy;
use crate::acl::errors::AuthzError;
use crate::acl::errors::Denial;
use crate::acl::scope::CheckScope;
use crate::models::authorization::Action;
use crate::models::authorization::Resource;
use crate::models::authorization::SubjectId;
use crate::repos::error::authz_repo_error;
use crate::repos::error::RepoError;
use crate::repos::error::RepoErrorView;
use crate::repos::error::RepoResult;
use vstd::prelude::*;

verus! {

/// A repository result with its error as plain values.
pub open spec fn outcome<T>(r: RepoResult<T>) -> Result<T, RepoErrorView> {
    match r {
        Ok(value) => Ok(value),
        Err(e) => Err(e@),
    }
}

/// What a repository answers after a check: `value` where the check allowed,
/// and else the repository error that the failed check becomes.
pub open spec fn guarded<T>(
    decision: Result<(), AuthzError>,
    resource: Resource,
    action: Action,
    value: T,
) -> Result<T, RepoErrorView> {
    match decision {
        Ok(()) => Ok(value),
        Err(e) => Err(authz_repo_error(e, resource, action)),
    }
}

/// The batch that stands for an optional entity.
pub open spec fn candidates_of<T>(obj: Option<&T>) -> Seq<T> {
    match obj {
        Some(entity) => seq![*entity],
        None => Seq::empty(),
    }
}

/// Asks the engine whether `action` on `resource` is allowed for `obj`, the
/// one entity that the operation touches, if it touches one.
pub fn check<T, C: CheckScope<T>>(
    acl: &AclPolicy,
    resource: Resource,
    action: Action,
    scope_checker: &C,
    obj: Option<&T>,
) -> (r: RepoResult<()>)
    ensures
        outcome(r) == guarded(
            acl.check_spec(resource, action, scope_checker, candidates_of(obj)),
            resource,
            action,
            (),
        ),
{
    let decision = match obj {
        Some(entity) => acl.check_one(resource, action, scope_checker, entity),
        None => {
            let none: Vec<T> = Vec::new();
            acl.check(resource, action, scope_checker, &none)
        },
    };
    match decision {
        Ok(()) => Ok(()),
        Err(e) => Err(RepoError::from_authz(e, resource, action)),
    }
}

/// Asks the engine whether `action` on `resource` is allowed for all of
/// `rows`, and hands the rows on if it is.  There is no partial answer: one
/// row that the subject may not touch withholds them all.
pub fn check_all<T, C: CheckScope<T>>(
    acl: &AclPolicy,
    resource: Resource,
    action: Action,
    scope_checker: &C,
    rows: Vec<T>,
) -> (r: RepoResult<Vec<T>>)
    ensures
        outcome(r) == guarded(
            acl.check_spec(resource, action, scope_checker, rows@),
            resource,
            action,
            rows,
        ),
{
    match acl.check(resource, action, scope_checker, &rows) {
        Ok(()) => Ok(rows),
        Err(e) => Err(RepoError::from_authz(e, resource, action)),
    }
}

/// Asks the engine whether `action` on `resource` is allowed for `row`, and
/// hands the row on if it is.
pub fn check_row<T, C: CheckScope<T>>(
    acl: &AclPolicy,
    resource: Resource,
    action: Action,
    scope_checker: &C,
    row: T,
) -> (r: RepoResult<T>)
    ensures
        outcome(r) == guarded(
            acl.check_spec(resource, action, scope_checker, seq![row]),
            resource,
            action,
            row,
        ),
{
    match acl.check_one(resource, action, scope_checker, &row) {
        Ok(()) => Ok(row),
        Err(e) => Err(RepoError::from_authz(e, resource, action)),
    }
}

/// What is written to the log about a refusal: who asked for what, and why
/// it was refused.  The candidates are not part of it.
#[derive(Clone, Copy, Debug, PartialEq, Eq, Structural)]
pub struct DenialRecord {
    pub subject: Option<SubjectId>,
    pub resource: Resource,
    pub action: Action,
    pub kind: Denial,
}

/// The log record of a check's outcome: one for a refusal, none for an
/// allowance and none for a lookup that failed.
pub fn denial_record(
    subject: Option<SubjectId>,
    resource: Resource,
    action: Action,
    decision: &Result<(), AuthzError>,
) -> (record: Option<DenialRecord>)
    ensures
        record == match *decision {
            Err(AuthzError::Denied(kind)) => Some(DenialRecord { subject, resource, action, kind }),
            _ => None::<DenialRecord>,
        },
{
    match decision {
        Err(AuthzError::Denied(kind)) => Some(
            DenialRecord { subject, resource, action, kind: *kind },
        ),
        _ => None,
    }
}

} // verus!
