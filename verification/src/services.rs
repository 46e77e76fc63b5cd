//! What the services decide between their reads and writes.
pub mod base_products;
pub mod cart;
pub mod error;
pub mod filters;
pub mod products;
pub mod stores;
