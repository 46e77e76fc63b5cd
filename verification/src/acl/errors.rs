//! What an authorization check can answer besides "allowed".
//!
//! A denial is a decision: it is final for the operation and maps to a
//! "forbidden" answer.  A lookup failure is no decision: the caller may try
//! again, and it maps to a server error.  The two never share a type.
use vstd::prelude::*;

verus! {

/// Why an operation is refused.
#[derive(Clone, Copy, Debug, PartialEq, Eq, Structural)]
pub enum Denial {
    /// No role of the subject grants any scope for the resource and action.
    Forbidden,
    /// The roles grant owned rows only, and a candidate is not the subject's.
    NotOwned,
}

/// Why the roles of a subject could not be resolved.
#[derive(Clone, Copy, Debug, PartialEq, Eq, Structural)]
pub enum RoleLookupError {
    /// The role-assignment store knows no such subject.
    UnknownSubject,
    /// The role-assignment store could not be reached.
    StoreUnavailable,
}

/// Why the ownership of a candidate could not be resolved.
#[derive(Clone, Copy, Debug, PartialEq, Eq, Structural)]
pub enum ScopeResolutionError {
    /// A read along the ownership chain failed.
    LookupFailed,
}

/// Outcome of a check that did not allow the operation.
#[derive(Clone, Copy, Debug, PartialEq, Eq, Structural)]
pub enum AuthzError {
    /// The operation is refused.
    Denied(Denial),
    /// The subject's roles could not be resolved.
    RoleLookup(RoleLookupError),
    /// The ownership of a candidate could not be resolved.
    ScopeResolution(ScopeResolutionError),
}

impl AuthzError {
    /// Whether this outcome is a decision, as opposed to a failed lookup.
    pub open spec fn is_denial_spec(self) -> bool {
        self is Denied
    }

    /// Whether this outcome is a decision, as opposed to a failed lookup.
    pub fn is_denial(&self) -> (r: bool)
        ensures
            r == self.is_denial_spec(),
    {
        match self {
            AuthzError::Denied(_) => true,
            _ => false,
        }
    }

    /// Whether the caller may try the operation again: a failed lookup may be
    /// retried, a denial never.
    pub fn is_retryable(&self) -> (r: bool)
        ensures
            r == !self.is_denial_spec(),
    {
        !self.is_denial()
    }
}

} // verus!
