//! Vocabulary of the authorization rules: who (a role) may do what (an
//! action) to which family of entities (a resource), and how widely (a scope).
use vstd::prelude::*;

verus! {

/// Identifier of a subject: an authenticated user.
pub type SubjectId = i32;

/// A role that a subject can hold.  Roles are data of the deployment; the
/// engine knows them only by their identifier.
#[derive(Clone, Copy, Debug, PartialEq, Eq, Structural, Hash)]
pub struct Role(pub u32);

/// A family of protected entities.
#[derive(Clone, Copy, Debug, PartialEq, Eq, Structural, Hash)]
pub enum Resource {
    Stores,
    BaseProducts,
    Products,
    ProductAttributes,
    Categories,
    CategoryAttributes,
    Attributes,
    UserRoles,
}

/// What a subject wants to do to an entity.
#[derive(Clone, Copy, Debug, PartialEq, Eq, Structural, Hash)]
pub enum Action {
    Create,
    Read,
    Update,
    Delete,
}

/// Breadth of access: no row, only the rows tied to the requesting subject,
/// or any row.  Scopes are totally ordered, `NoAccess < Owned < All`.
#[derive(Clone, Copy, Debug, PartialEq, Eq, Structural, PartialOrd, Ord, Hash)]
pub enum Scope {
    NoAccess,
    Owned,
    All,
}

/// One line of the ruleset: `role` is granted `scope` for `action` on
/// `resource`.
#[derive(Clone, Copy, Debug, PartialEq, Eq, Structural, Hash)]
pub struct Rule {
    pub role: Role,
    pub resource: Resource,
    pub action: Action,
    pub scope: Scope,
}

impl Resource {
    /// Position of the resource in the closed list of resources.
    pub open spec fn index(self) -> int {
        match self {
            Resource::Stores => 0,
            Resource::BaseProducts => 1,
            Resource::Products => 2,
            Resource::ProductAttributes => 3,
            Resource::Categories => 4,
            Resource::CategoryAttributes => 5,
            Resource::Attributes => 6,
            Resource::UserRoles => 7,
        }
    }

    /// Position of the resource in the closed list of resources.
    pub fn ordinal(self) -> (n: u64)
        ensures
            n == self.index(),
            n < 8,
    {
        match self {
            Resource::Stores => 0,
            Resource::BaseProducts => 1,
            Resource::Products => 2,
            Resource::ProductAttributes => 3,
            Resource::Categories => 4,
            Resource::CategoryAttributes => 5,
            Resource::Attributes => 6,
            Resource::UserRoles => 7,
        }
    }
}

impl Resource {
    /// The resource as it is written in messages.
    pub open spec fn name_spec(self) -> Seq<char> {
        match self {
            Resource::Stores => "stores"@,
            Resource::BaseProducts => "base products"@,
            Resource::Products => "products"@,
            Resource::ProductAttributes => "product attributes"@,
            Resource::Categories => "categories"@,
            Resource::CategoryAttributes => "category attributes"@,
            Resource::Attributes => "attributes"@,
            Resource::UserRoles => "user roles"@,
        }
    }

    /// The resource as it is written in messages.
    pub fn name(self) -> (name: &'static str)
        ensures
            name@ == self.name_spec(),
    {
        match self {
            Resource::Stores => "stores",
            Resource::BaseProducts => "base products",
            Resource::Products => "products",
            Resource::ProductAttributes => "product attributes",
            Resource::Categories => "categories",
            Resource::CategoryAttributes => "category attributes",
            Resource::Attributes => "attributes",
            Resource::UserRoles => "user roles",
        }
    }
}

impl Action {
    /// The action as it is written in messages.
    pub open spec fn name_spec(self) -> Seq<char> {
        match self {
            Action::Create => "create"@,
            Action::Read => "read"@,
            Action::Update => "update"@,
            Action::Delete => "delete"@,
        }
    }

    /// The action as it is written in messages.
    pub fn name(self) -> (name: &'static str)
        ensures
            name@ == self.name_spec(),
    {
        match self {
            Action::Create => "create",
            Action::Read => "read",
            Action::Update => "update",
            Action::Delete => "delete",
        }
    }
}

impl Action {
    /// Position of the action in the closed list of actions.
    pub open spec fn index(self) -> int {
        match self {
            Action::Create => 0,
            Action::Read => 1,
            Action::Update => 2,
            Action::Delete => 3,
        }
    }

    /// Position of the action in the closed list of actions.
    pub fn ordinal(self) -> (n: u64)
        ensures
            n == self.index(),
            n < 4,
    {
        match self {
            Action::Create => 0,
            Action::Read => 1,
            Action::Update => 2,
            Action::Delete => 3,
        }
    }
}

impl Scope {
    /// Place of the scope in the order `NoAccess < Owned < All`.
    pub open spec fn rank(self) -> int {
        match self {
            Scope::NoAccess => 0,
            Scope::Owned => 1,
            Scope::All => 2,
        }
    }

    /// The wider of two scopes.
    pub open spec fn wider(self, other: Scope) -> Scope {
        if self.rank() >= other.rank() {
            self
        } else {
            other
        }
    }

    /// Whether a grant of `self` suffices where `required` is asked for.
    pub open spec fn covers_spec(self, required: Scope) -> bool {
        required.rank() <= self.rank()
    }

    /// The wider of two scopes: `All` if either is `All`, else `Owned` if
    /// either is `Owned`, else `NoAccess`.
    pub fn most_permissive(self, other: Scope) -> (r: Scope)
        ensures
            r == self.wider(other),
    {
        match (self, other) {
            (Scope::All, _) => Scope::All,
            (_, Scope::All) => Scope::All,
            (Scope::Owned, _) => Scope::Owned,
            (_, Scope::Owned) => Scope::Owned,
            _ => Scope::NoAccess,
        }
    }

    /// Whether a grant of `self` suffices where `required` is asked for: the
    /// required scope is at most the granted one.
    pub fn covers(self, required: Scope) -> (r: bool)
        ensures
            r == self.covers_spec(required),
    {
        match (self, required) {
            (_, Scope::NoAccess) => true,
            (Scope::All, _) => true,
            (Scope::Owned, Scope::Owned) => true,
            _ => false,
        }
    }
}

/// The order of scopes is total: of two scopes one covers the other, two
/// scopes that cover each other are the same, and covering is transitive.
pub proof fn scope_order_is_total(a: Scope, b: Scope, c: Scope)
    ensures
        a.covers_spec(b) || b.covers_spec(a),
        a.covers_spec(b) && b.covers_spec(a) ==> a == b,
        a.covers_spec(b) && b.covers_spec(c) ==> a.covers_spec(c),
        Scope::All.covers_spec(a),
        a.covers_spec(Scope::NoAccess),
        Scope::NoAccess.rank() < Scope::Owned.rank() < Scope::All.rank(),
{
}

/// The wider of two scopes is one of them, covers both, and does not depend
/// on their order.
pub proof fn wider_is_least_upper_bound(a: Scope, b: Scope)
    ensures
        a.wider(b) == a || a.wider(b) == b,
        a.wider(b).covers_spec(a),
        a.wider(b).covers_spec(b),
        a.wider(b) == b.wider(a),
        a.wider(Scope::NoAccess) == a,
        a.wider(Scope::All) == Scope::All,
{
}

} // verus!
