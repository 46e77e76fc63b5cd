//! Values of attributes on product variants.
use vstd::prelude::*;

verus! {

/// Identifier of a product variant.
pub type ProductId = i32;

/// Identifier of a base product.
pub type BaseProductId = i32;

/// Identifier of an attribute.
pub type AttributeId = i32;

/// Identifier of one of the values that an attribute can take.
pub type AttributeValueId = i32;

/// Identifier of a store.
pub type StoreId = i32;

/// Identifier of a category.
pub type CategoryId = i32;

/// How the value of an attribute is to be read.
#[derive(Debug, Clone, Copy, PartialEq, Eq, Structural)]
pub enum AttributeType {
    Str,
    Float,
}

/// The value of one attribute on one product variant, as it is read from
/// storage.
#[derive(Debug, Clone)]
pub struct ProdAttr {
    pub id: i32,
    pub prod_id: ProductId,
    pub base_prod_id: BaseProductId,
    pub attr_id: AttributeId,
    pub value: String,
    pub value_type: AttributeType,
    pub meta_field: Option<String>,
    pub attr_value_id: Option<AttributeValueId>,
}

/// Payload for giving a product variant a value of an attribute.
#[derive(Debug, Clone)]
pub struct NewProdAttr {
    pub prod_id: ProductId,
    pub base_prod_id: BaseProductId,
    pub attr_id: AttributeId,
    pub value: String,
    pub value_type: AttributeType,
    pub meta_field: Option<String>,
    pub attr_value_id: Option<AttributeValueId>,
}

/// Payload for changing the value of an attribute on a product variant.
#[derive(Debug, Clone)]
pub struct UpdateProdAttr {
    pub prod_id: ProductId,
    pub attr_id: AttributeId,
    pub value: String,
    pub meta_field: Option<String>,
}

impl NewProdAttr {
    /// The payload made of its parts.
    pub fn new(
        prod_id: ProductId,
        base_prod_id: BaseProductId,
        attr_id: AttributeId,
        value: String,
        value_type: AttributeType,
        meta_field: Option<String>,
        attr_value_id: Option<AttributeValueId>,
    ) -> (payload: NewProdAttr)
        ensures
            payload.prod_id == prod_id,
            payload.base_prod_id == base_prod_id,
            payload.attr_id == attr_id,
            payload.value == value,
            payload.value_type == value_type,
            payload.meta_field == meta_field,
            payload.attr_value_id == attr_value_id,
    {
        NewProdAttr { prod_id, base_prod_id, attr_id, value, value_type, meta_field, attr_value_id }
    }
}

} // verus!
