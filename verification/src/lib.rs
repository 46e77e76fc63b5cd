//! Catalog of stores, base products and product variants, guarded by a
//! role-based authorization engine.
//!
//! Every data-access operation asks the engine in [`acl`] before a row is
//! read, created, updated or deleted.  The engine looks up the scope that the
//! subject's roles are granted in a permission matrix and, where only owned
//! rows are granted, asks a scope resolver about each candidate row.
pub mod acl;
pub mod config;
pub mod errors;
pub mod json;
pub mod models;
pub mod repos;
pub mod services;
pub mod validation;
