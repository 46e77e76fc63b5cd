//! Answers of the search index to a write.
use vstd::prelude::*;

verus! {

/// How many shards a write went to, and how it fared on them.
#[derive(Debug, Clone, Copy)]
pub struct Shards {
    pub total: u32,
    pub successful: u32,
    pub failed: u32,
}

/// What the search index answers when a document is indexed.
#[derive(Debug)]
pub struct IndexResponse {
    pub shards: Shards,
    pub index: String,
    pub ty: String,
    pub id: String,
    pub version: Option<u32>,
    pub seq_no: Option<u32>,
    pub primary_term: Option<u32>,
    pub result: String,
}

impl IndexResponse {
    /// Whether the index reports that the document is new: its result is the
    /// word `created`, letter for letter.
    pub fn created(&self) -> (r: bool)
        ensures
            r == (self.result@ == "created"@),
    {
        let expected = "created".to_owned();
        self.result == expected
    }
}

} // verus!
