//! Attributes: what can be said about a product variant, and the values
//! that say it.
use crate::models::product_attr::AttributeId;
use crate::models::product_attr::AttributeType;
use crate::models::product_attr::AttributeValueId;
use vstd::prelude::*;

verus! {

/// A text in one language.
#[derive(Debug, Clone)]
pub struct Translation {
    pub lang: String,
    pub text: String,
}

/// An attribute as it is read from storage.
#[derive(Debug, Clone)]
pub struct Attribute {
    pub id: AttributeId,
    pub name: serde_json::Value,
    pub value_type: AttributeType,
    pub meta_field: Option<serde_json::Value>,
}

/// Payload for creating attributes.
#[derive(Clone, Debug)]
pub struct NewAttribute {
    pub name: serde_json::Value,
    pub value_type: AttributeType,
    pub meta_field: Option<serde_json::Value>,
}

/// How an attribute is shown and which values it offers.
#[derive(Debug, Clone)]
pub struct AttributeMetaField {
    pub values: Option<Vec<String>>,
    pub translated_values: Option<Vec<Vec<Translation>>>,
    pub ui_element: serde_json::Value,
}

/// Payload of a request that creates an attribute.
#[derive(Debug, Clone)]
pub struct CreateAttributePayload {
    pub name: serde_json::Value,
    pub value_type: AttributeType,
    pub meta_field: Option<AttributeMetaField>,
}

/// Payload for updating attributes.
#[derive(Debug)]
pub struct UpdateAttribute {
    pub name: Option<serde_json::Value>,
    pub meta_field: Option<serde_json::Value>,
}

/// One of the values that an attribute can take, as it is read from
/// storage.
#[derive(Debug, Clone)]
pub struct AttributeValue {
    pub id: AttributeValueId,
    pub attr_id: AttributeId,
    pub code: String,
    pub translations: Option<serde_json::Value>,
}

/// The value of an attribute, as a request names it and as an answer
/// carries it.
#[derive(Debug, Clone)]
pub struct AttrValue {
    pub attr_id: AttributeId,
    pub attr_value_id: Option<AttributeValueId>,
    pub value: String,
    pub translations: Option<serde_json::Value>,
    pub meta_field: Option<String>,
}

} // verus!
