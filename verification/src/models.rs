//! Data that the catalog reads and writes, and the vocabulary of the
//! authorization rules.
pub mod attributes;
pub mod authorization;
pub mod base_product;
pub mod category_attribute;
pub mod elastic;
pub mod language;
pub mod product_attr;
pub mod product_categories;
pub mod store;
