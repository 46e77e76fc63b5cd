//! Stores: the rows read, the payload that creates one and the payload that
//! changes one.
use crate::acl::scope::Ownable;
use crate::models::authorization::Scope;
use crate::models::authorization::SubjectId;
use vstd::prelude::*;

verus! {

/// `std::time::SystemTime`, a point in time as the system clock measures it.
/// The catalog stores and hands on such values and never looks inside one.
#[verifier::external_type_specification]
#[verifier::external_body]
pub struct ExSystemTime(std::time::SystemTime);

/// `SystemTime::clone`: the type is `Copy`, so the clone is the same point in
/// time as the value it was made from.
pub assume_specification[ <std::time::SystemTime as Clone>::clone ](
    t: &std::time::SystemTime,
) -> (r: std::time::SystemTime)
    ensures
        r == *t,
;

/// A store as it is read from storage.
#[derive(Debug, Clone)]
pub struct Store {
    pub id: i32,
    pub user_id: i32,
    pub is_active: bool,
    pub name: String,
    pub currency_id: i32,
    pub short_description: String,
    pub long_description: Option<String>,
    pub slug: String,
    pub cover: Option<String>,
    pub logo: Option<String>,
    pub phone: String,
    pub email: String,
    pub address: String,
    pub facebook_url: Option<String>,
    pub twitter_url: Option<String>,
    pub instagram_url: Option<String>,
    pub created_at: std::time::SystemTime,
    pub updated_at: std::time::SystemTime,
}

/// Payload for creating a store.
#[derive(Clone)]
pub struct NewStore {
    pub name: String,
    pub user_id: i32,
    pub currency_id: i32,
    pub short_description: String,
    pub long_description: Option<String>,
    pub slug: String,
    pub cover: Option<String>,
    pub logo: Option<String>,
    pub phone: String,
    pub email: String,
    pub address: String,
    pub facebook_url: Option<String>,
    pub twitter_url: Option<String>,
    pub instagram_url: Option<String>,
}

/// Payload for updating a store.
pub struct UpdateStore {
    pub name: String,
    pub currency_id: Option<i32>,
    pub short_description: Option<String>,
    pub long_description: Option<Option<String>>,
    pub slug: Option<String>,
    pub cover: Option<Option<String>>,
    pub logo: Option<Option<String>>,
    pub phone: Option<String>,
    pub email: Option<String>,
    pub address: Option<String>,
    pub facebook_url: Option<Option<String>>,
    pub twitter_url: Option<Option<String>>,
    pub instagram_url: Option<Option<String>>,
}

/// Whether a row owned by `owner` lies within `scope` for `subject`: every
/// row lies within `All`, the subject's own rows within `Owned`, none within
/// `NoAccess`.
pub open spec fn owner_in_scope(scope: Scope, owner: SubjectId, subject: SubjectId) -> bool {
    match scope {
        Scope::All => true,
        Scope::Owned => owner == subject,
        Scope::NoAccess => false,
    }
}

impl Ownable for Store {
    open spec fn owner_spec(&self) -> SubjectId {
        self.user_id
    }

    fn owner_id(&self) -> (owner: SubjectId) {
        self.user_id
    }
}

impl Ownable for NewStore {
    open spec fn owner_spec(&self) -> SubjectId {
        self.user_id
    }

    fn owner_id(&self) -> (owner: SubjectId) {
        self.user_id
    }
}

impl Store {
    /// Whether this store lies within `scope` for the subject `user_id`.
    pub fn is_in_scope(&self, scope: &Scope, user_id: SubjectId) -> (r: bool)
        ensures
            r == owner_in_scope(*scope, self.user_id, user_id),
    {
        match *scope {
            Scope::All => true,
            Scope::Owned => self.user_id == user_id,
            Scope::NoAccess => false,
        }
    }
}

impl NewStore {
    /// Whether the store that this payload would create lies within `scope`
    /// for the subject `user_id`: ownership is the owner that the payload
    /// declares.
    pub fn is_in_scope(&self, scope: &Scope, user_id: SubjectId) -> (r: bool)
        ensures
            r == owner_in_scope(*scope, self.user_id, user_id),
    {
        match *scope {
            Scope::All => true,
            Scope::Owned => self.user_id == user_id,
            Scope::NoAccess => false,
        }
    }
}

} // verus!
