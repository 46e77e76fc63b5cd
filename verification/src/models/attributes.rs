//! Attributes of the entity-attribute-value model.
pub mod attribute;
