//! The authorization decision.
//!
//! A check names a subject, a resource, an action and the candidate entities
//! that the action would touch.  The engine takes the widest scope that the
//! subject's roles are granted for the action on the resource.  `NoAccess`
//! refuses, `All` allows without looking at any candidate, and `Owned` allows
//! exactly if the scope resolver finds every candidate to be the subject's.
//! A request without a subject is judged by a closed list of resources that
//! anyone may read.
//!
//! A check changes nothing: the same inputs give the same decision.
use crate::acl::errors::AuthzError;
use crate::acl::errors::Denial;
use crate::acl::errors::RoleLookupError;
use crate::acl::errors::ScopeResolutionError;
use crate::acl::matrix::rule_matches;
use crate::acl::matrix::unlisted_triple_is_denied;
use crate::acl::matrix::widest_grant;
use crate::acl::matrix::widest_grant_depends_on_grants_only;
use crate::acl::matrix::widest_grant_is_maximum;
use crate::acl::matrix::PermissionMatrix;
use crate::acl::scope::CheckScope;
use crate::models::authorization::Action;
use crate::models::authorization::Resource;
use crate::models::authorization::Role;
use crate::models::authorization::Rule;
use crate::models::authorization::Scope;
use crate::models::authorization::SubjectId;
use vstd::prelude::*;

verus! {

/// The decision for a batch under the scope `Owned`, from what the resolver
/// answered for each candidate in turn.  Every candidate has to be the
/// subject's.  The first candidate that is not settles the outcome: a
/// candidate of someone else refuses the whole batch, a failed read fails the
/// whole check.  An empty batch is allowed.
pub open spec fn owned_decision(outcomes: Seq<Result<bool, ScopeResolutionError>>) -> Result<
    (),
    AuthzError,
>
    decreases outcomes.len(),
{
    if outcomes.len() == 0 {
        Ok(())
    } else {
        match outcomes.first() {
            Ok(true) => owned_decision(outcomes.drop_first()),
            Ok(false) => Err(AuthzError::Denied(Denial::NotOwned)),
            Err(e) => Err(AuthzError::ScopeResolution(e)),
        }
    }
}

/// The decision for a granted scope and the resolver's answers.
pub open spec fn scoped_decision(
    granted: Scope,
    outcomes: Seq<Result<bool, ScopeResolutionError>>,
) -> Result<(), AuthzError> {
    match granted {
        Scope::NoAccess => Err(AuthzError::Denied(Denial::Forbidden)),
        Scope::All => Ok(()),
        Scope::Owned => owned_decision(outcomes),
    }
}

/// What a resolver answers for each candidate of a batch, in order.
pub open spec fn ownership_outcomes<T, C: CheckScope<T>>(
    resolver: &C,
    subject: SubjectId,
    candidates: Seq<T>,
) -> Seq<Result<bool, ScopeResolutionError>> {
    Seq::new(candidates.len(), |i: int| resolver.owns_spec(subject, &candidates[i]))
}

/// The decision for a request without a subject: reading a public resource
/// is allowed, everything else is refused.
pub open spec fn anonymous_decision(public: Seq<Resource>, resource: Resource, action: Action)
    -> Result<(), AuthzError> {
    if action == Action::Read && public.contains(resource) {
        Ok(())
    } else {
        Err(AuthzError::Denied(Denial::Forbidden))
    }
}

/// While every answer so far is "owned", the decision is that of the answers
/// still to come.
pub proof fn owned_prefix_is_skipped(outcomes: Seq<Result<bool, ScopeResolutionError>>, n: int)
    requires
        0 <= n <= outcomes.len(),
        forall|j: int| 0 <= j < n ==> outcomes[j] == Ok::<bool, ScopeResolutionError>(true),
    ensures
        owned_decision(outcomes) == owned_decision(outcomes.skip(n)),
    decreases n,
{
    if n == 0 {
        assert(outcomes.skip(0) == outcomes);
    } else {
        let rest = outcomes.drop_first();
        assert forall|j: int| 0 <= j < n - 1 implies rest[j] == Ok::<bool, ScopeResolutionError>(
            true,
        ) by {
            assert(rest[j] == outcomes[j + 1]);
        }
        owned_prefix_is_skipped(rest, n - 1);
        assert(rest.skip(n - 1) == outcomes.skip(n));
        assert(outcomes.first() == outcomes[0]);
    }
}

/// Decides for a granted scope from answers that a resolver has given.
/// The answers are read only where the scope is `Owned`.
pub fn decide(granted: Scope, outcomes: &Vec<Result<bool, ScopeResolutionError>>) -> (r: Result<
    (),
    AuthzError,
>)
    ensures
        r == scoped_decision(granted, outcomes@),
{
    match granted {
        Scope::NoAccess => Err(AuthzError::Denied(Denial::Forbidden)),
        Scope::All => Ok(()),
        Scope::Owned => {
            let mut i: usize = 0;
            while i < outcomes.len()
                invariant
                    i <= outcomes@.len(),
                    granted == Scope::Owned,
                    forall|j: int|
                        0 <= j < i ==> outcomes@[j] == Ok::<bool, ScopeResolutionError>(true),
                decreases outcomes@.len() - i,
            {
                proof {
                    owned_prefix_is_skipped(outcomes@, i as int);
                    assert(outcomes@.skip(i as int).first() == outcomes@[i as int]);
                }
                match outcomes[i] {
                    Ok(true) => {},
                    Ok(false) => {
                        return Err(AuthzError::Denied(Denial::NotOwned));
                    },
                    Err(e) => {
                        return Err(AuthzError::ScopeResolution(e));
                    },
                }
                i = i + 1;
            }
            proof {
                owned_prefix_is_skipped(outcomes@, i as int);
                assert(outcomes@.skip(i as int).len() == 0);
            }
            Ok(())
        },
    }
}

/// The engine for one authenticated subject: the shared permission matrix
/// and the roles that the subject holds at the time of the request.
pub struct Acl<'a> {
    matrix: &'a PermissionMatrix,
    subject: SubjectId,
    roles: Vec<Role>,
}

impl<'a> Acl<'a> {
    /// The matrix that the engine consults.
    pub closed spec fn matrix(&self) -> &PermissionMatrix {
        self.matrix
    }

    /// The subject that the engine decides for.
    pub closed spec fn subject(&self) -> SubjectId {
        self.subject
    }

    /// The roles that the subject holds.
    pub closed spec fn roles(&self) -> Seq<Role> {
        self.roles@
    }

    /// The scope that the subject's roles are granted.
    pub open spec fn granted_spec(&self, resource: Resource, action: Action) -> Scope {
        self.matrix().granted_scope_spec(self.roles(), resource, action)
    }

    /// What `check` answers.
    pub open spec fn check_spec<T, C: CheckScope<T>>(
        &self,
        resource: Resource,
        action: Action,
        resolver: &C,
        candidates: Seq<T>,
    ) -> Result<(), AuthzError> {
        scoped_decision(
            self.granted_spec(resource, action),
            ownership_outcomes(resolver, self.subject(), candidates),
        )
    }

    /// An engine for `subject`, who holds `roles`.
    pub fn new(matrix: &'a PermissionMatrix, subject: SubjectId, roles: Vec<Role>) -> (acl: Acl<
        'a,
    >)
        ensures
            acl.matrix() == matrix,
            acl.subject() == subject,
            acl.roles() == roles@,
    {
        Acl { matrix, subject, roles }
    }

    /// The scope that the subject's roles are granted for `action` on
    /// `resource`: the most permissive among them.
    pub fn granted(&self, resource: Resource, action: Action) -> (scope: Scope)
        ensures
            scope == self.granted_spec(resource, action),
    {
        self.matrix.granted_scope(&self.roles, resource, action)
    }

    /// Decides whether the subject may perform `action` on `resource` for
    /// all of `candidates`.
    ///
    /// With no grant the answer is `Forbidden`.  With a grant of `All` the
    /// operation is allowed and the resolver is not asked.  With a grant of
    /// `Owned` the resolver is asked about the candidates in order, each
    /// once, up to the first that is not the subject's: that one refuses the
    /// whole batch with `NotOwned`, or fails the check if the resolver could
    /// not tell.
    pub fn check<T, C: CheckScope<T>>(
        &self,
        resource: Resource,
        action: Action,
        resolver: &C,
        candidates: &Vec<T>,
    ) -> (r: Result<(), AuthzError>)
        ensures
            r == self.check_spec(resource, action, resolver, candidates@),
    {
        match self.granted(resource, action) {
            Scope::NoAccess => Err(AuthzError::Denied(Denial::Forbidden)),
            Scope::All => Ok(()),
            Scope::Owned => owned_check(resolver, self.subject, candidates),
        }
    }

    /// Decides for a single candidate, as `check` does for the batch that
    /// holds just that candidate.
    pub fn check_one<T, C: CheckScope<T>>(
        &self,
        resource: Resource,
        action: Action,
        resolver: &C,
        candidate: &T,
    ) -> (r: Result<(), AuthzError>)
        ensures
            r == self.check_spec(resource, action, resolver, seq![*candidate]),
    {
        proof {
            let outcomes = ownership_outcomes(resolver, self.subject, seq![*candidate]);
            assert(outcomes.len() == 1);
            assert(outcomes.first() == resolver.owns_spec(self.subject, candidate));
            assert(outcomes.drop_first().len() == 0);
            assert(owned_decision(outcomes.drop_first()) == Ok::<(), AuthzError>(()));
        }
        match self.granted(resource, action) {
            Scope::NoAccess => Err(AuthzError::Denied(Denial::Forbidden)),
            Scope::All => Ok(()),
            Scope::Owned => match resolver.owns(self.subject, candidate) {
                Ok(true) => Ok(()),
                Ok(false) => Err(AuthzError::Denied(Denial::NotOwned)),
                Err(e) => Err(AuthzError::ScopeResolution(e)),
            },
        }
    }
}

/// The policy for requests without a verified subject.  It consults neither
/// the matrix nor any role: it allows reading the resources on its list of
/// public resources and refuses everything else.
pub struct UnauthorizedAcl {
    public: Vec<Resource>,
}

impl UnauthorizedAcl {
    /// The resources that anyone may read.
    pub closed spec fn public(&self) -> Seq<Resource> {
        self.public@
    }

    /// A policy with the given list of public resources.
    pub fn new(public: Vec<Resource>) -> (acl: UnauthorizedAcl)
        ensures
            acl.public() == public@,
    {
        UnauthorizedAcl { public }
    }

    /// Decides whether a request without a subject may perform `action` on
    /// `resource`: reading a public resource is allowed, everything else is
    /// refused with `Forbidden`.
    pub fn check(&self, resource: Resource, action: Action) -> (r: Result<(), AuthzError>)
        ensures
            r == anonymous_decision(self.public(), resource, action),
    {
        if action == Action::Read {
            let mut i: usize = 0;
            while i < self.public.len()
                invariant
                    i <= self.public@.len(),
                    action == Action::Read,
                    forall|j: int| 0 <= j < i ==> self.public@[j] != resource,
                decreases self.public@.len() - i,
            {
                if self.public[i] == resource {
                    assert(self.public@[i as int] == resource);
                    return Ok(());
                }
                i = i + 1;
            }
        }
        Err(AuthzError::Denied(Denial::Forbidden))
    }
}

/// The policy that judges one request: the engine of the subject that the
/// request was made by, or the policy for requests without a subject.
pub enum AclPolicy<'a> {
    Authenticated(Acl<'a>),
    Anonymous(&'a UnauthorizedAcl),
}

impl<'a> AclPolicy<'a> {
    /// What `check` answers.
    pub open spec fn check_spec<T, C: CheckScope<T>>(
        &self,
        resource: Resource,
        action: Action,
        resolver: &C,
        candidates: Seq<T>,
    ) -> Result<(), AuthzError> {
        match self {
            AclPolicy::Authenticated(acl) => acl.check_spec(resource, action, resolver, candidates),
            AclPolicy::Anonymous(acl) => anonymous_decision(acl.public(), resource, action),
        }
    }

    /// Decides whether the request may perform `action` on `resource` for all
    /// of `candidates`, by the policy that applies to it.
    pub fn check<T, C: CheckScope<T>>(
        &self,
        resource: Resource,
        action: Action,
        resolver: &C,
        candidates: &Vec<T>,
    ) -> (r: Result<(), AuthzError>)
        ensures
            r == self.check_spec(resource, action, resolver, candidates@),
    {
        match self {
            AclPolicy::Authenticated(acl) => acl.check(resource, action, resolver, candidates),
            AclPolicy::Anonymous(acl) => acl.check(resource, action),
        }
    }

    /// Decides for a single candidate, as `check` does for the batch that
    /// holds just that candidate.
    pub fn check_one<T, C: CheckScope<T>>(
        &self,
        resource: Resource,
        action: Action,
        resolver: &C,
        candidate: &T,
    ) -> (r: Result<(), AuthzError>)
        ensures
            r == self.check_spec(resource, action, resolver, seq![*candidate]),
    {
        match self {
            AclPolicy::Authenticated(acl) => acl.check_one(resource, action, resolver, candidate),
            AclPolicy::Anonymous(acl) => acl.check(resource, action),
        }
    }
}

/// What the process holds for all requests: the permission matrix and the
/// policy for requests without a subject.  Both are built at start and only
/// read afterwards.
pub struct Engine {
    matrix: PermissionMatrix,
    anonymous: UnauthorizedAcl,
}

impl Engine {
    /// The permission matrix.
    pub closed spec fn matrix(&self) -> &PermissionMatrix {
        &self.matrix
    }

    /// The resources that anyone may read.
    pub closed spec fn public(&self) -> Seq<Resource> {
        self.anonymous.public()
    }

    /// What `check` answers: a request without a subject is judged by the
    /// list of public resources; a subject whose roles could not be resolved
    /// gets that failure, which is no denial; any other subject is judged by
    /// the widest scope that its roles are granted.
    pub open spec fn check_spec<T, C: CheckScope<T>>(
        &self,
        subject: Option<SubjectId>,
        roles: Result<Seq<Role>, RoleLookupError>,
        resource: Resource,
        action: Action,
        resolver: &C,
        candidates: Seq<T>,
    ) -> Result<(), AuthzError> {
        match subject {
            None => anonymous_decision(self.public(), resource, action),
            Some(subject) => match roles {
                Err(e) => Err(AuthzError::RoleLookup(e)),
                Ok(roles) => scoped_decision(
                    self.matrix().granted_scope_spec(roles, resource, action),
                    ownership_outcomes(resolver, subject, candidates),
                ),
            },
        }
    }

    /// The engine of a ruleset and a list of public resources.
    pub fn new(rules: &Vec<Rule>, public: Vec<Resource>) -> (engine: Engine)
        ensures
            engine.matrix().is_matrix_of(rules@),
            engine.public() == public@,
    {
        Engine { matrix: PermissionMatrix::from_rules(rules), anonymous: UnauthorizedAcl::new(public) }
    }

    /// The policy for a request: that of `subject` with the roles it holds,
    /// or the policy for requests without a subject, which ignores `roles`.
    pub fn policy(&self, subject: Option<SubjectId>, roles: Vec<Role>) -> (policy: AclPolicy<'_>)
        ensures
            match subject {
                Some(subject) => policy matches AclPolicy::Authenticated(acl) && acl.matrix()
                    == self.matrix() && acl.subject() == subject && acl.roles() == roles@,
                None => policy matches AclPolicy::Anonymous(acl) && acl.public() == self.public(),
            },
    {
        match subject {
            Some(subject) => AclPolicy::Authenticated(Acl::new(&self.matrix, subject, roles)),
            None => AclPolicy::Anonymous(&self.anonymous),
        }
    }

    /// Decides whether `subject` may perform `action` on `resource` for all of
    /// `candidates`.  `roles` is what the resolution of the subject's roles
    /// came to; it is not looked at for a request without a subject.
    pub fn check<T, C: CheckScope<T>>(
        &self,
        subject: Option<SubjectId>,
        roles: &Result<Vec<Role>, RoleLookupError>,
        resource: Resource,
        action: Action,
        resolver: &C,
        candidates: &Vec<T>,
    ) -> (r: Result<(), AuthzError>)
        ensures
            r == self.check_spec(
                subject,
                match roles {
                    Ok(held) => Ok(held@),
                    Err(e) => Err(*e),
                },
                resource,
                action,
                resolver,
                candidates@,
            ),
    {
        match subject {
            None => self.anonymous.check(resource, action),
            Some(subject) => match roles {
                Err(e) => Err(AuthzError::RoleLookup(*e)),
                Ok(held) => {
                    let granted = self.matrix.granted_scope(held, resource, action);
                    match granted {
                        Scope::NoAccess => Err(AuthzError::Denied(Denial::Forbidden)),
                        Scope::All => Ok(()),
                        Scope::Owned => owned_check(resolver, subject, candidates),
                    }
                },
            },
        }
    }
}

/// Asks the resolver about the candidates in order, each once, up to the
/// first that is not the subject's.
fn owned_check<T, C: CheckScope<T>>(resolver: &C, subject: SubjectId, candidates: &Vec<T>) -> (r:
    Result<(), AuthzError>)
    ensures
        r == owned_decision(ownership_outcomes(resolver, subject, candidates@)),
{
    let ghost outcomes = ownership_outcomes(resolver, subject, candidates@);
    let mut i: usize = 0;
    while i < candidates.len()
        invariant
            i <= candidates@.len(),
            outcomes == ownership_outcomes(resolver, subject, candidates@),
            forall|j: int| 0 <= j < i ==> outcomes[j] == Ok::<bool, ScopeResolutionError>(true),
        decreases candidates@.len() - i,
    {
        proof {
            owned_prefix_is_skipped(outcomes, i as int);
            assert(outcomes.skip(i as int).first() == outcomes[i as int]);
        }
        match resolver.owns(subject, &candidates[i]) {
            Ok(true) => {},
            Ok(false) => {
                return Err(AuthzError::Denied(Denial::NotOwned));
            },
            Err(e) => {
                return Err(AuthzError::ScopeResolution(e));
            },
        }
        i = i + 1;
    }
    proof {
        owned_prefix_is_skipped(outcomes, i as int);
        assert(outcomes.skip(i as int).len() == 0);
    }
    Ok(())
}

/// A batch under `Owned` is allowed exactly if every candidate is the
/// subject's.  There is no partial allowance: one candidate that is not
/// fails the whole batch.
pub proof fn owned_batch_is_all_or_nothing(outcomes: Seq<Result<bool, ScopeResolutionError>>)
    ensures
        owned_decision(outcomes) is Ok <==> forall|i: int|
            0 <= i < outcomes.len() ==> outcomes[i] == Ok::<bool, ScopeResolutionError>(true),
    decreases outcomes.len(),
{
    if outcomes.len() > 0 {
        let rest = outcomes.drop_first();
        owned_batch_is_all_or_nothing(rest);
        if owned_decision(outcomes) is Ok {
            assert forall|i: int| 0 <= i < outcomes.len() implies outcomes[i] == Ok::<
                bool,
                ScopeResolutionError,
            >(true) by {
                if i > 0 {
                    assert(rest[i - 1] == outcomes[i]);
                }
            }
        }
        if forall|i: int|
            0 <= i < outcomes.len() ==> outcomes[i] == Ok::<bool, ScopeResolutionError>(true) {
            assert(outcomes[0] == Ok::<bool, ScopeResolutionError>(true));
            assert forall|i: int| 0 <= i < rest.len() implies rest[i] == Ok::<
                bool,
                ScopeResolutionError,
            >(true) by {
                assert(rest[i] == outcomes[i + 1]);
            }
        }
    }
}

/// Where the resolver can tell for every candidate and candidate `k` is not
/// the subject's, the batch is refused with `NotOwned`, whatever the other
/// candidates are.
pub proof fn foreign_candidate_refuses_batch(
    outcomes: Seq<Result<bool, ScopeResolutionError>>,
    k: int,
)
    requires
        0 <= k < outcomes.len(),
        outcomes[k] == Ok::<bool, ScopeResolutionError>(false),
        forall|i: int| 0 <= i < outcomes.len() ==> outcomes[i] is Ok,
    ensures
        owned_decision(outcomes) == Err::<(), AuthzError>(AuthzError::Denied(Denial::NotOwned)),
    decreases outcomes.len(),
{
    if k > 0 {
        let rest = outcomes.drop_first();
        assert(outcomes[0] is Ok);
        assert(rest[k - 1] == outcomes[k]);
        assert forall|i: int| 0 <= i < rest.len() implies rest[i] is Ok by {
            assert(rest[i] == outcomes[i + 1]);
        }
        foreign_candidate_refuses_batch(rest, k - 1);
    }
}

/// A candidate that is not the subject's fails the check under `Owned`: the
/// outcome is a denial or a failed read, never an allowance.
pub proof fn owned_check_fails_on_foreign_candidate<T, C: CheckScope<T>>(
    acl: Acl,
    resource: Resource,
    action: Action,
    resolver: &C,
    candidates: Seq<T>,
    k: int,
)
    requires
        acl.granted_spec(resource, action) == Scope::Owned,
        0 <= k < candidates.len(),
        resolver.owns_spec(acl.subject(), &candidates[k]) != Ok::<bool, ScopeResolutionError>(
            true,
        ),
    ensures
        acl.check_spec(resource, action, resolver, candidates) is Err,
        (forall|i: int|
            0 <= i < candidates.len() ==> resolver.owns_spec(acl.subject(), &candidates[i]) is Ok)
            ==> acl.check_spec(resource, action, resolver, candidates) == Err::<(), AuthzError>(
            AuthzError::Denied(Denial::NotOwned),
        ),
{
    let outcomes = ownership_outcomes(resolver, acl.subject(), candidates);
    owned_batch_is_all_or_nothing(outcomes);
    assert(outcomes[k] == resolver.owns_spec(acl.subject(), &candidates[k]));
    if forall|i: int|
        0 <= i < candidates.len() ==> resolver.owns_spec(acl.subject(), &candidates[i]) is Ok {
        assert(outcomes[k] is Ok);
        assert(outcomes[k] == Ok::<bool, ScopeResolutionError>(false)) by {
            match outcomes[k] {
                Ok(owned) => {
                    assert(!owned);
                },
                Err(_) => {},
            }
        }
        assert forall|i: int| 0 <= i < outcomes.len() implies outcomes[i] is Ok by {
            assert(outcomes[i] == resolver.owns_spec(acl.subject(), &candidates[i]));
        }
        foreign_candidate_refuses_batch(outcomes, k);
    }
}

/// A subject none of whose roles is mentioned by a rule for the resource and
/// action is refused with `Forbidden`, whatever the candidates are.
pub proof fn roles_without_rule_are_forbidden<T, C: CheckScope<T>>(
    acl: Acl,
    rules: Seq<Rule>,
    resource: Resource,
    action: Action,
    resolver: &C,
    candidates: Seq<T>,
)
    requires
        acl.matrix().is_matrix_of(rules),
        forall|i: int, j: int|
            0 <= i < acl.roles().len() && 0 <= j < rules.len() ==> !rule_matches(
                rules[j],
                acl.roles()[i],
                resource,
                action,
            ),
    ensures
        acl.granted_spec(resource, action) == Scope::NoAccess,
        acl.check_spec(resource, action, resolver, candidates) == Err::<(), AuthzError>(
            AuthzError::Denied(Denial::Forbidden),
        ),
{
    let grant = |role: Role| acl.matrix().grant_spec(role, resource, action);
    widest_grant_is_maximum(grant, acl.roles());
    if widest_grant(grant, acl.roles()) != Scope::NoAccess {
        let i = choose|i: int|
            0 <= i < acl.roles().len() && grant(#[trigger] acl.roles()[i]) == widest_grant(
                grant,
                acl.roles(),
            );
        unlisted_triple_is_denied(rules, acl.roles()[i], resource, action);
        assert(acl.matrix().grant_spec(acl.roles()[i], resource, action) == Scope::NoAccess);
    }
}

/// The most permissive role decides.  A subject one of whose roles is
/// granted `All` is allowed, whatever its other roles are granted and
/// whatever the candidates are; the resolver's answers play no part.
pub proof fn one_role_with_all_allows<T, C: CheckScope<T>>(
    acl: Acl,
    resource: Resource,
    action: Action,
    resolver: &C,
    candidates: Seq<T>,
    i: int,
)
    requires
        0 <= i < acl.roles().len(),
        acl.matrix().grant_spec(acl.roles()[i], resource, action) == Scope::All,
    ensures
        acl.granted_spec(resource, action) == Scope::All,
        acl.check_spec(resource, action, resolver, candidates) == Ok::<(), AuthzError>(()),
{
    let grant = |role: Role| acl.matrix().grant_spec(role, resource, action);
    widest_grant_is_maximum(grant, acl.roles());
    assert(widest_grant(grant, acl.roles()).covers_spec(grant(acl.roles()[i])));
}

/// A check is a function of its inputs.  Two engines with the same subject
/// and roles, whose matrices grant these roles the same for the resource and
/// action, decide alike; so does one engine asked twice.
pub proof fn check_depends_on_inputs_only<T, C: CheckScope<T>>(
    first: Acl,
    second: Acl,
    resource: Resource,
    action: Action,
    resolver: &C,
    candidates: Seq<T>,
)
    requires
        first.subject() == second.subject(),
        first.roles() == second.roles(),
        forall|i: int|
            0 <= i < first.roles().len() ==> first.matrix().grant_spec(
                #[trigger] first.roles()[i],
                resource,
                action,
            ) == second.matrix().grant_spec(first.roles()[i], resource, action),
    ensures
        first.check_spec(resource, action, resolver, candidates) == second.check_spec(
            resource,
            action,
            resolver,
            candidates,
        ),
{
    widest_grant_depends_on_grants_only(
        |role: Role| first.matrix().grant_spec(role, resource, action),
        |role: Role| second.matrix().grant_spec(role, resource, action),
        first.roles(),
    );
}

} // verus!
