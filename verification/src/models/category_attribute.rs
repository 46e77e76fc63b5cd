//! Which attributes the products of a category have.
use vstd::prelude::*;

verus! {

/// An attribute of a category, as it is read from storage.
#[derive(Debug, Clone, Copy, PartialEq, Eq, Structural)]
pub struct CatAttr {
    pub id: i32,
    pub cat_id: i32,
    pub attr_id: i32,
}

/// Payload for giving a category an attribute.
#[derive(Debug, Clone, Copy, PartialEq, Eq, Structural)]
pub struct NewCatAttr {
    pub cat_id: i32,
    pub attr_id: i32,
}

/// Payload for taking an attribute from a category.
#[derive(Debug, Clone, Copy, PartialEq, Eq, Structural)]
pub struct OldCatAttr {
    pub cat_id: i32,
    pub attr_id: i32,
}

} // verus!
