//! What the repositories decide: which check guards which operation, and
//! what a row's owner is.  The reads and writes themselves are not here.
pub mod acl;
pub mod category_attrs;
pub mod error;
pub mod product_attrs;
pub mod products;
pub mod stores;
