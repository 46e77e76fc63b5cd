//! Errors of the repositories.
use crate::acl::errors::AuthzError;
use crate::models::authorization::Action;
use crate::models::authorization::Resource;
use vstd::prelude::*;

verus! {

/// Why a repository could not do what it was asked.
#[derive(Debug)]
pub enum RepoError {
    NotFound,
    Rollback,
    ContstaintViolation(String),
    MismatchedType(String),
    Connection(String),
    Unknown(String),
    Unauthorized(Resource, Action),
}

/// A repository error as plain values.
pub enum RepoErrorView {
    NotFound,
    Rollback,
    ContstaintViolation(Seq<char>),
    MismatchedType(Seq<char>),
    Connection(Seq<char>),
    Unknown(Seq<char>),
    Unauthorized(Resource, Action),
}

impl View for RepoError {
    type V = RepoErrorView;

    open spec fn view(&self) -> RepoErrorView {
        match self {
            RepoError::NotFound => RepoErrorView::NotFound,
            RepoError::Rollback => RepoErrorView::Rollback,
            RepoError::ContstaintViolation(cause) => RepoErrorView::ContstaintViolation(cause@),
            RepoError::MismatchedType(cause) => RepoErrorView::MismatchedType(cause@),
            RepoError::Connection(cause) => RepoErrorView::Connection(cause@),
            RepoError::Unknown(cause) => RepoErrorView::Unknown(cause@),
            RepoError::Unauthorized(resource, action) => RepoErrorView::Unauthorized(
                *resource,
                *action,
            ),
        }
    }
}

/// Result of a repository operation.
pub type RepoResult<T> = Result<T, RepoError>;

/// Text of the error that stands for roles that could not be resolved.
pub const ROLES_UNAVAILABLE: &'static str = "roles of the subject could not be resolved";

/// Text of the error that stands for an owner that could not be resolved.
pub const OWNER_UNAVAILABLE: &'static str = "owner of the entity could not be resolved";

/// The repository error that a failed check becomes.  A denial of either
/// kind becomes `Unauthorized` with the resource and the action, and with
/// nothing about the candidates.  A lookup that failed becomes a connection
/// error, so that it is never taken for a denial.
pub open spec fn authz_repo_error(e: AuthzError, resource: Resource, action: Action)
    -> RepoErrorView {
    match e {
        AuthzError::Denied(_) => RepoErrorView::Unauthorized(resource, action),
        AuthzError::RoleLookup(_) => RepoErrorView::Connection(ROLES_UNAVAILABLE@),
        AuthzError::ScopeResolution(_) => RepoErrorView::Connection(OWNER_UNAVAILABLE@),
    }
}

impl RepoError {
    /// Whether the error is a refused operation.
    pub open spec fn is_unauthorized_spec(&self) -> bool {
        self is Unauthorized
    }

    /// Whether the error is a refused operation.
    pub fn is_unauthorized(&self) -> (r: bool)
        ensures
            r == self.is_unauthorized_spec(),
    {
        match self {
            RepoError::Unauthorized(_, _) => true,
            _ => false,
        }
    }

    /// The repository error that a failed check on `resource` and `action`
    /// becomes.
    pub fn from_authz(e: AuthzError, resource: Resource, action: Action) -> (r: RepoError)
        ensures
            r@ == authz_repo_error(e, resource, action),
    {
        match e {
            AuthzError::Denied(_) => RepoError::Unauthorized(resource, action),
            AuthzError::RoleLookup(_) => RepoError::Connection(String::from_str(ROLES_UNAVAILABLE)),
            AuthzError::ScopeResolution(_) => RepoError::Connection(
                String::from_str(OWNER_UNAVAILABLE),
            ),
        }
    }
}

} // verus!
