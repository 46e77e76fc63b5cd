//! Scope resolution: whether a candidate entity belongs to the subject that
//! asks for it.
//!
//! Each family of resources has its own way to find the owner of an entity.
//! A store names its owner in a field.  A product variant is owned through
//! its base product and that product's store, which takes further reads of
//! storage; such a resolver lives with the repository that can make the
//! reads.  Attributes and categories have no owner at all.
use crate::acl::errors::ScopeResolutionError;
use crate::models::authorization::Scope;
use crate::models::authorization::SubjectId;
use std::collections::HashMap;
use vstd::prelude::*;

verus! {

broadcast use vstd::std_specs::hash::group_hash_axioms;

/// A scope resolver for entities of type `T`.
///
/// `owns` answers for one candidate and is asked once for each candidate of
/// a batch.  A chain of relations that ends before it reaches an owner is no
/// error: the candidate is then not the subject's.  An error is a read that
/// failed.
///
/// The answer is a function of the resolver, the subject and the candidate:
/// a resolver that reads storage stands for the snapshot that its reads see.
/// `owns_spec` names that function.  A resolver that does not define it
/// states that it can never tell.
pub trait CheckScope<T> {
    /// What `owns` answers.
    open spec fn owns_spec(&self, subject: SubjectId, candidate: &T) -> Result<
        bool,
        ScopeResolutionError,
    > {
        Err(ScopeResolutionError::LookupFailed)
    }

    /// Whether `candidate` belongs to `subject`.
    fn owns(&self, subject: SubjectId, candidate: &T) -> (r: Result<bool, ScopeResolutionError>)
        ensures
            r == self.owns_spec(subject, candidate),
    ;
}

/// An entity that names its owner itself.
pub trait Ownable {
    /// The subject that owns the entity.
    spec fn owner_spec(&self) -> SubjectId;

    /// The subject that owns the entity.
    fn owner_id(&self) -> (owner: SubjectId)
        ensures
            owner == self.owner_spec(),
    ;
}

/// Resolver for entities that name their owner: the candidate belongs to the
/// subject exactly if the subject is that owner.  It reads nothing else.
#[derive(Clone, Copy, Debug)]
pub struct DirectOwner;

impl<T: Ownable> CheckScope<T> for DirectOwner {
    open spec fn owns_spec(&self, subject: SubjectId, candidate: &T) -> Result<
        bool,
        ScopeResolutionError,
    > {
        Ok(candidate.owner_spec() == subject)
    }

    fn owns(&self, subject: SubjectId, candidate: &T) -> (r: Result<bool, ScopeResolutionError>) {
        Ok(candidate.owner_id() == subject)
    }
}

/// Resolver for entities without an owner: no candidate belongs to any
/// subject, so such a resource is reached under the scope `All` only.
#[derive(Clone, Copy, Debug)]
pub struct NoOwner;

impl<T> CheckScope<T> for NoOwner {
    open spec fn owns_spec(&self, subject: SubjectId, candidate: &T) -> Result<
        bool,
        ScopeResolutionError,
    > {
        Ok(false)
    }

    fn owns(&self, subject: SubjectId, candidate: &T) -> (r: Result<bool, ScopeResolutionError>) {
        Ok(false)
    }
}

/// What a read along an ownership chain came back with.
#[derive(Clone, Copy, Debug, PartialEq, Eq, Structural)]
pub enum OwnerLookup {
    /// The chain ends at this owner.
    Owner(SubjectId),
    /// A link of the chain is missing.
    Missing,
    /// The read failed.
    Failed,
}

/// Whether the chain's end belongs to the subject: the owner that was found
/// is compared with the subject, a missing link belongs to nobody, and a
/// failed read is an error.
pub open spec fn resolve_lookup_spec(lookup: OwnerLookup, subject: SubjectId) -> Result<
    bool,
    ScopeResolutionError,
> {
    match lookup {
        OwnerLookup::Owner(owner) => Ok(owner == subject),
        OwnerLookup::Missing => Ok(false),
        OwnerLookup::Failed => Err(ScopeResolutionError::LookupFailed),
    }
}

/// Turns what a read along an ownership chain came back with into the answer
/// of a scope resolver.
pub fn resolve_lookup(lookup: OwnerLookup, subject: SubjectId) -> (r: Result<
    bool,
    ScopeResolutionError,
>)
    ensures
        r == resolve_lookup_spec(lookup, subject),
{
    match lookup {
        OwnerLookup::Owner(owner) => Ok(owner == subject),
        OwnerLookup::Missing => Ok(false),
        OwnerLookup::Failed => Err(ScopeResolutionError::LookupFailed),
    }
}

/// What is left to do to place an entity within a scope.
#[derive(Clone, Copy, Debug, PartialEq, Eq, Structural)]
pub enum ScopeQuery {
    /// Nothing: the answer is known.
    Decided(bool),
    /// Find the owner at the end of the chain that starts at this parent.
    Lookup(i32),
}

/// What is left to do to place an entity within `scope`, where the entity
/// is owned through the parent row `parent`.  Every entity lies within `All`
/// and none within `NoAccess`, so nothing is read for these.  Under `Owned`
/// the owner has to be looked up; without an entity there is nothing that
/// the subject could own.
pub open spec fn scope_query_spec(scope: Scope, parent: Option<i32>) -> ScopeQuery {
    match scope {
        Scope::All => ScopeQuery::Decided(true),
        Scope::NoAccess => ScopeQuery::Decided(false),
        Scope::Owned => match parent {
            Some(id) => ScopeQuery::Lookup(id),
            None => ScopeQuery::Decided(false),
        },
    }
}

/// What is left to do to place an entity within `scope`, where the entity
/// is owned through the parent row `parent`.
pub fn scope_query(scope: Scope, parent: Option<i32>) -> (query: ScopeQuery)
    ensures
        query == scope_query_spec(scope, parent),
{
    match scope {
        Scope::All => ScopeQuery::Decided(true),
        Scope::NoAccess => ScopeQuery::Decided(false),
        Scope::Owned => match parent {
            Some(id) => ScopeQuery::Lookup(id),
            None => ScopeQuery::Decided(false),
        },
    }
}

/// Whether an entity without any owner lies within `scope`: only within
/// `All`.
pub open spec fn unowned_in_scope(scope: Scope) -> bool {
    scope == Scope::All
}

/// A candidate entity, reduced to where its chain of ownership starts.
#[derive(Clone, Copy, Debug, PartialEq, Eq, Structural)]
pub enum Candidate {
    /// An entity that names its owner.
    OwnedBy(SubjectId),
    /// An entity of the store with this identifier.
    InStore(i32),
    /// An entity of the base product with this identifier.
    OfBaseProduct(i32),
    /// An entity of the product variant with this identifier.
    OfProduct(i32),
    /// An entity that has no owner.
    Unowned,
}

/// The owner of a store in a snapshot of the stores' owners.
pub open spec fn store_owner(owner_of_store: Map<i32, SubjectId>, store: i32) -> Option<
    SubjectId,
> {
    if owner_of_store.contains_key(store) {
        Some(owner_of_store[store])
    } else {
        None
    }
}

/// The owner of the store of a base product.
pub open spec fn base_product_owner(
    owner_of_store: Map<i32, SubjectId>,
    store_of_base_product: Map<i32, i32>,
    base_product: i32,
) -> Option<SubjectId> {
    if store_of_base_product.contains_key(base_product) {
        store_owner(owner_of_store, store_of_base_product[base_product])
    } else {
        None
    }
}

/// The owner at the end of a candidate's chain, in a snapshot of the
/// relations: each product variant's base product, each base product's
/// store, each store's owner.  A link that the snapshot does not hold ends
/// the chain without an owner.
pub open spec fn chain_owner(
    owner_of_store: Map<i32, SubjectId>,
    store_of_base_product: Map<i32, i32>,
    base_product_of_product: Map<i32, i32>,
    candidate: Candidate,
) -> Option<SubjectId> {
    match candidate {
        Candidate::OwnedBy(owner) => Some(owner),
        Candidate::InStore(store) => store_owner(owner_of_store, store),
        Candidate::OfBaseProduct(base_product) => base_product_owner(
            owner_of_store,
            store_of_base_product,
            base_product,
        ),
        Candidate::OfProduct(product) => if base_product_of_product.contains_key(product) {
            base_product_owner(
                owner_of_store,
                store_of_base_product,
                base_product_of_product[product],
            )
        } else {
            None
        },
        Candidate::Unowned => None,
    }
}

/// A snapshot of the relations that ownership runs along, and the resolver
/// that follows them.
pub struct OwnershipChains {
    owner_of_store: HashMap<i32, SubjectId>,
    store_of_base_product: HashMap<i32, i32>,
    base_product_of_product: HashMap<i32, i32>,
}

impl OwnershipChains {
    /// The owner of each store.
    pub closed spec fn owner_of_store(&self) -> Map<i32, SubjectId> {
        self.owner_of_store@
    }

    /// The store of each base product.
    pub closed spec fn store_of_base_product(&self) -> Map<i32, i32> {
        self.store_of_base_product@
    }

    /// The base product of each product variant.
    pub closed spec fn base_product_of_product(&self) -> Map<i32, i32> {
        self.base_product_of_product@
    }

    /// The owner at the end of a candidate's chain.
    pub open spec fn owner_spec(&self, candidate: Candidate) -> Option<SubjectId> {
        chain_owner(
            self.owner_of_store(),
            self.store_of_base_product(),
            self.base_product_of_product(),
            candidate,
        )
    }

    /// A snapshot without any relation.
    pub fn new() -> (chains: OwnershipChains)
        ensures
            chains.owner_of_store() == Map::<i32, SubjectId>::empty(),
            chains.store_of_base_product() == Map::<i32, i32>::empty(),
            chains.base_product_of_product() == Map::<i32, i32>::empty(),
    {
        OwnershipChains {
            owner_of_store: HashMap::new(),
            store_of_base_product: HashMap::new(),
            base_product_of_product: HashMap::new(),
        }
    }

    /// Records the owner of a store.
    pub fn add_store(&mut self, store: i32, owner: SubjectId)
        ensures
            final(self).owner_of_store() == old(self).owner_of_store().insert(store, owner),
            final(self).store_of_base_product() == old(self).store_of_base_product(),
            final(self).base_product_of_product() == old(self).base_product_of_product(),
    {
        self.owner_of_store.insert(store, owner);
    }

    /// Records the store of a base product.
    pub fn add_base_product(&mut self, base_product: i32, store: i32)
        ensures
            final(self).owner_of_store() == old(self).owner_of_store(),
            final(self).store_of_base_product() == old(self).store_of_base_product().insert(
                base_product,
                store,
            ),
            final(self).base_product_of_product() == old(self).base_product_of_product(),
    {
        self.store_of_base_product.insert(base_product, store);
    }

    /// Records the base product of a product variant.
    pub fn add_product(&mut self, product: i32, base_product: i32)
        ensures
            final(self).owner_of_store() == old(self).owner_of_store(),
            final(self).store_of_base_product() == old(self).store_of_base_product(),
            final(self).base_product_of_product() == old(self).base_product_of_product().insert(
                product,
                base_product,
            ),
    {
        self.base_product_of_product.insert(product, base_product);
    }

    fn owner_of(&self, store: i32) -> (owner: Option<SubjectId>)
        ensures
            owner == self.owner_spec(Candidate::InStore(store)),
    {
        match self.owner_of_store.get(&store) {
            Some(owner) => Some(*owner),
            None => None,
        }
    }

    fn owner_through_base_product(&self, base_product: i32) -> (owner: Option<SubjectId>)
        ensures
            owner == self.owner_spec(Candidate::OfBaseProduct(base_product)),
    {
        match self.store_of_base_product.get(&base_product) {
            Some(store) => self.owner_of(*store),
            None => None,
        }
    }

    /// The owner at the end of a candidate's chain, if the chain reaches one.
    pub fn owner(&self, candidate: &Candidate) -> (owner: Option<SubjectId>)
        ensures
            owner == self.owner_spec(*candidate),
    {
        match candidate {
            Candidate::OwnedBy(owner) => Some(*owner),
            Candidate::InStore(store) => self.owner_of(*store),
            Candidate::OfBaseProduct(base_product) => self.owner_through_base_product(
                *base_product,
            ),
            Candidate::OfProduct(product) => match self.base_product_of_product.get(product) {
                Some(base_product) => self.owner_through_base_product(*base_product),
                None => None,
            },
            Candidate::Unowned => None,
        }
    }
}

impl CheckScope<Candidate> for OwnershipChains {
    open spec fn owns_spec(&self, subject: SubjectId, candidate: &Candidate) -> Result<
        bool,
        ScopeResolutionError,
    > {
        Ok(self.owner_spec(*candidate) == Some(subject))
    }

    fn owns(&self, subject: SubjectId, candidate: &Candidate) -> (r: Result<
        bool,
        ScopeResolutionError,
    >) {
        match self.owner(candidate) {
            Some(owner) => Ok(owner == subject),
            None => Ok(false),
        }
    }
}

/// A chain with a missing link belongs to nobody: the candidate is denied
/// to every subject, and resolving it is no error.
pub proof fn dangling_chain_is_owned_by_nobody(
    chains: OwnershipChains,
    subject: SubjectId,
    candidate: Candidate,
)
    requires
        chains.owner_spec(candidate) is None,
    ensures
        chains.owns_spec(subject, &candidate) == Ok::<bool, ScopeResolutionError>(false),
{
}

/// A product variant is owned by the owner of the store of its base product.
pub proof fn product_is_owned_through_its_store(
    chains: OwnershipChains,
    product: i32,
    base_product: i32,
    store: i32,
    owner: SubjectId,
    subject: SubjectId,
)
    requires
        chains.base_product_of_product().contains_pair(product, base_product),
        chains.store_of_base_product().contains_pair(base_product, store),
        chains.owner_of_store().contains_pair(store, owner),
    ensures
        chains.owns_spec(subject, &Candidate::OfProduct(product)) == Ok::<
            bool,
            ScopeResolutionError,
        >(owner == subject),
        chains.owns_spec(subject, &Candidate::OfBaseProduct(base_product)) == Ok::<
            bool,
            ScopeResolutionError,
        >(owner == subject),
{
}

} // verus!
