//! Languages that texts of the catalog are written in.
use vstd::prelude::*;

verus! {

/// A language of the catalog.
#[derive(Debug)]
pub struct Language {
    pub id: i32,
    pub name: String,
}

} // verus!
