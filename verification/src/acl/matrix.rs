//! The permission matrix: for each role, resource and action the widest scope
//! that the ruleset grants.  It is built once and only read afterwards.
use crate::models::authorization::Action;
use crate::models::authorization::Resource;
use crate::models::authorization::Role;
use crate::models::authorization::Rule;
use crate::models::authorization::Scope;
use std::collections::HashMap;
use vstd::prelude::*;

verus! {

broadcast use vstd::std_specs::hash::group_hash_axioms;

/// Whether `rule` speaks of `role`, `resource` and `action`.
pub open spec fn rule_matches(rule: Rule, role: Role, resource: Resource, action: Action) -> bool {
    rule.role == role && rule.resource == resource && rule.action == action
}

/// The scope that a ruleset grants a role for an action on a resource: the
/// widest scope among the rules that speak of the three, and `NoAccess` where
/// none does.
pub open spec fn ruleset_grant(
    rules: Seq<Rule>,
    role: Role,
    resource: Resource,
    action: Action,
) -> Scope
    decreases rules.len(),
{
    if rules.len() == 0 {
        Scope::NoAccess
    } else {
        let earlier = ruleset_grant(rules.drop_last(), role, resource, action);
        if rule_matches(rules.last(), role, resource, action) {
            earlier.wider(rules.last().scope)
        } else {
            earlier
        }
    }
}

/// The widest scope that any of `roles` is granted by `grant`, and `NoAccess`
/// for a subject without roles.
pub open spec fn widest_grant(grant: spec_fn(Role) -> Scope, roles: Seq<Role>) -> Scope
    decreases roles.len(),
{
    if roles.len() == 0 {
        Scope::NoAccess
    } else {
        widest_grant(grant, roles.drop_last()).wider(grant(roles.last()))
    }
}

/// Slot of a role, resource and action in the keyed table.
pub open spec fn slot(role: Role, resource: Resource, action: Action) -> int {
    role.0 * 32 + resource.index() * 4 + action.index()
}

/// Two different triples never share a slot.
pub proof fn slots_are_distinct(
    role: Role,
    resource: Resource,
    action: Action,
    role2: Role,
    resource2: Resource,
    action2: Action,
)
    ensures
        slot(role, resource, action) == slot(role2, resource2, action2) ==> role == role2
            && resource == resource2 && action == action2,
        0 <= slot(role, resource, action) <= u64::MAX,
{
}

fn slot_of(role: Role, resource: Resource, action: Action) -> (k: u64)
    ensures
        k == slot(role, resource, action),
{
    let r: u64 = role.0 as u64;
    r * 32 + resource.ordinal() * 4 + action.ordinal()
}

/// The permission matrix.
pub struct PermissionMatrix {
    grants: HashMap<u64, Scope>,
}

impl PermissionMatrix {
    /// The scope that the matrix holds for a role, resource and action;
    /// `NoAccess` where it holds no entry.
    pub closed spec fn grant_spec(&self, role: Role, resource: Resource, action: Action) -> Scope {
        let k = slot(role, resource, action) as u64;
        if self.grants@.contains_key(k) {
            self.grants@[k]
        } else {
            Scope::NoAccess
        }
    }

    /// The scope that the matrix grants a set of roles: the widest that any
    /// of them is granted.
    pub open spec fn granted_scope_spec(
        &self,
        roles: Seq<Role>,
        resource: Resource,
        action: Action,
    ) -> Scope {
        widest_grant(|role: Role| self.grant_spec(role, resource, action), roles)
    }

    /// Whether the matrix is the matrix of `rules`: it grants each triple
    /// what the ruleset grants it.
    pub open spec fn is_matrix_of(&self, rules: Seq<Rule>) -> bool {
        forall|role: Role, resource: Resource, action: Action|
            #[trigger] self.grant_spec(role, resource, action) == ruleset_grant(
                rules,
                role,
                resource,
                action,
            )
    }

    /// A matrix without any grant.
    pub fn empty() -> (m: PermissionMatrix)
        ensures
            m.is_matrix_of(Seq::<Rule>::empty()),
            forall|role: Role, resource: Resource, action: Action|
                #[trigger] m.grant_spec(role, resource, action) == Scope::NoAccess,
    {
        PermissionMatrix { grants: HashMap::new() }
    }

    /// Builds the matrix of a ruleset.  Each triple of role, resource and
    /// action is granted the widest scope among the rules that speak of it;
    /// a triple that no rule speaks of is granted `NoAccess`.
    pub fn from_rules(rules: &Vec<Rule>) -> (m: PermissionMatrix)
        ensures
            m.is_matrix_of(rules@),
    {
        let mut m = PermissionMatrix { grants: HashMap::new() };
        let mut i: usize = 0;
        while i < rules.len()
            invariant
                i <= rules@.len(),
                forall|role: Role, resource: Resource, action: Action|
                    #[trigger] m.grant_spec(role, resource, action) == ruleset_grant(
                        rules@.take(i as int),
                        role,
                        resource,
                        action,
                    ),
            decreases rules@.len() - i,
        {
            let rule = rules[i];
            let ghost before = m;
            let k = slot_of(rule.role, rule.resource, rule.action);
            let scope = match m.grants.get(&k) {
                Some(held) => held.most_permissive(rule.scope),
                None => rule.scope,
            };
            m.grants.insert(k, scope);
            proof {
                assert(rules@.take(i + 1).drop_last() == rules@.take(i as int));
                assert(rules@.take(i + 1).last() == rule);
                assert forall|role: Role, resource: Resource, action: Action|
                    #[trigger] m.grant_spec(role, resource, action) == ruleset_grant(
                        rules@.take(i + 1),
                        role,
                        resource,
                        action,
                    ) by {
                    slots_are_distinct(
                        role,
                        resource,
                        action,
                        rule.role,
                        rule.resource,
                        rule.action,
                    );
                    assert(before.grant_spec(role, resource, action) == ruleset_grant(
                        rules@.take(i as int),
                        role,
                        resource,
                        action,
                    ));
                }
            }
            i = i + 1;
        }
        proof {
            assert(rules@.take(i as int) == rules@);
        }
        m
    }

    /// The scope granted to one role for an action on a resource.  A triple
    /// without an entry is granted `NoAccess`: what is not granted is denied.
    pub fn grant(&self, role: Role, resource: Resource, action: Action) -> (scope: Scope)
        ensures
            scope == self.grant_spec(role, resource, action),
    {
        let k = slot_of(role, resource, action);
        match self.grants.get(&k) {
            Some(held) => *held,
            None => Scope::NoAccess,
        }
    }

    /// The scope granted to a subject that holds `roles`: the most permissive
    /// scope among its roles for the resource and action.
    pub fn granted_scope(&self, roles: &Vec<Role>, resource: Resource, action: Action) -> (scope:
        Scope)
        ensures
            scope == self.granted_scope_spec(roles@, resource, action),
    {
        let ghost grant = |role: Role| self.grant_spec(role, resource, action);
        let mut scope = Scope::NoAccess;
        let mut i: usize = 0;
        while i < roles.len()
            invariant
                i <= roles@.len(),
                grant == (|role: Role| self.grant_spec(role, resource, action)),
                scope == widest_grant(grant, roles@.take(i as int)),
            decreases roles@.len() - i,
        {
            proof {
                assert(roles@.take(i + 1).drop_last() == roles@.take(i as int));
                assert(roles@.take(i + 1).last() == roles@[i as int]);
            }
            scope = scope.most_permissive(self.grant(roles[i], resource, action));
            i = i + 1;
        }
        proof {
            assert(roles@.take(i as int) == roles@);
        }
        scope
    }
}

/// What a ruleset grants is the widest scope among its matching rules: it
/// covers the scope of every rule that speaks of the triple, and it is the
/// scope of one of them unless it is `NoAccess`.
pub proof fn ruleset_grant_is_widest_match(
    rules: Seq<Rule>,
    role: Role,
    resource: Resource,
    action: Action,
)
    ensures
        forall|i: int|
            0 <= i < rules.len() && rule_matches(#[trigger] rules[i], role, resource, action)
                ==> ruleset_grant(rules, role, resource, action).covers_spec(rules[i].scope),
        ruleset_grant(rules, role, resource, action) == Scope::NoAccess || exists|i: int|
            0 <= i < rules.len() && rule_matches(#[trigger] rules[i], role, resource, action)
                && rules[i].scope == ruleset_grant(rules, role, resource, action),
    decreases rules.len(),
{
    if rules.len() > 0 {
        let earlier = rules.drop_last();
        ruleset_grant_is_widest_match(earlier, role, resource, action);
        let before = ruleset_grant(earlier, role, resource, action);
        let now = ruleset_grant(rules, role, resource, action);
        assert forall|i: int|
            0 <= i < rules.len() && rule_matches(
                #[trigger] rules[i],
                role,
                resource,
                action,
            ) implies now.covers_spec(rules[i].scope) by {
            if i < rules.len() - 1 {
                assert(earlier[i] == rules[i]);
            }
        }
        if now != Scope::NoAccess {
            if rule_matches(rules.last(), role, resource, action) && now == rules.last().scope {
                assert(rules[rules.len() - 1] == rules.last());
            } else {
                let i = choose|i: int|
                    0 <= i < earlier.len() && rule_matches(
                        #[trigger] earlier[i],
                        role,
                        resource,
                        action,
                    ) && earlier[i].scope == before;
                assert(rules[i] == earlier[i]);
            }
        }
    }
}

/// A triple that no rule speaks of is granted nothing: absence denies.
pub proof fn unlisted_triple_is_denied(
    rules: Seq<Rule>,
    role: Role,
    resource: Resource,
    action: Action,
)
    requires
        forall|i: int| 0 <= i < rules.len() ==> !rule_matches(rules[i], role, resource, action),
    ensures
        ruleset_grant(rules, role, resource, action) == Scope::NoAccess,
{
    ruleset_grant_is_widest_match(rules, role, resource, action);
}

/// No action is inferred from another, nor a resource or a role: a rule
/// changes the grant of its own triple only.
pub proof fn rule_grants_its_own_triple_only(
    rules: Seq<Rule>,
    rule: Rule,
    role: Role,
    resource: Resource,
    action: Action,
)
    requires
        !rule_matches(rule, role, resource, action),
    ensures
        ruleset_grant(rules.push(rule), role, resource, action) == ruleset_grant(
            rules,
            role,
            resource,
            action,
        ),
{
    assert(rules.push(rule).drop_last() == rules);
}

/// The widest grant among a subject's roles covers the grant of each role,
/// and it is the grant of one of them unless it is `NoAccess`.
pub proof fn widest_grant_is_maximum(grant: spec_fn(Role) -> Scope, roles: Seq<Role>)
    ensures
        forall|i: int|
            0 <= i < roles.len() ==> widest_grant(grant, roles).covers_spec(
                grant(#[trigger] roles[i]),
            ),
        widest_grant(grant, roles) == Scope::NoAccess || exists|i: int|
            0 <= i < roles.len() && grant(#[trigger] roles[i]) == widest_grant(grant, roles),
    decreases roles.len(),
{
    if roles.len() > 0 {
        let earlier = roles.drop_last();
        widest_grant_is_maximum(grant, earlier);
        let before = widest_grant(grant, earlier);
        let now = widest_grant(grant, roles);
        assert forall|i: int| 0 <= i < roles.len() implies now.covers_spec(
            grant(#[trigger] roles[i]),
        ) by {
            if i < roles.len() - 1 {
                assert(earlier[i] == roles[i]);
            }
        }
        if now != Scope::NoAccess {
            if now == grant(roles.last()) {
                assert(roles[roles.len() - 1] == roles.last());
            } else {
                let i = choose|i: int|
                    0 <= i < earlier.len() && grant(#[trigger] earlier[i]) == before;
                assert(roles[i] == earlier[i]);
            }
        }
    }
}

/// The widest grant depends on what each of the roles is granted, and on
/// nothing else.
pub proof fn widest_grant_depends_on_grants_only(
    grant: spec_fn(Role) -> Scope,
    other: spec_fn(Role) -> Scope,
    roles: Seq<Role>,
)
    requires
        forall|i: int| 0 <= i < roles.len() ==> grant(#[trigger] roles[i]) == other(roles[i]),
    ensures
        widest_grant(grant, roles) == widest_grant(other, roles),
    decreases roles.len(),
{
    if roles.len() > 0 {
        let earlier = roles.drop_last();
        assert forall|i: int| 0 <= i < earlier.len() implies grant(#[trigger] earlier[i])
            == other(earlier[i]) by {
            assert(earlier[i] == roles[i]);
        }
        widest_grant_depends_on_grants_only(grant, other, earlier);
        assert(roles.last() == roles[roles.len() - 1]);
    }
}

} // verus!
