//! The authorization engine: the permission matrix, the cache of role
//! assignments, the scope resolvers and the decision itself.
pub mod engine;
pub mod errors;
pub mod matrix;
pub mod roles;
pub mod scope;
