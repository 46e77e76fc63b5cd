//! Base products together with what hangs on them.
use vstd::prelude::*;

verus! {

/// A base product with some of its variants.
#[derive(Debug, Clone)]
pub struct BaseProductWithVariants<B, V> {
    pub base_product: B,
    pub variants: Vec<V>,
}

impl<B, V> BaseProductWithVariants<B, V> {
    /// The base product with the given variants.
    pub fn new(base_product: B, variants: Vec<V>) -> (r: Self)
        ensures
            r.base_product == base_product,
            r.variants == variants,
    {
        Self { base_product, variants }
    }
}

/// A base product with its variants and their attributes.
#[derive(Debug, Clone)]
pub struct CatalogWithAttributes<B, V> {
    pub base_product: B,
    pub variants: Vec<V>,
}

impl<B, V> CatalogWithAttributes<B, V> {
    /// The base product with the given variants.
    pub fn new(base_product: B, variants: Vec<V>) -> (r: Self)
        ensures
            r.base_product == base_product,
            r.variants == variants,
    {
        Self { base_product, variants }
    }
}

} // verus!
