//! What each successful creation announces to observers.

use crate::address::Address;
use vstd::prelude::*;

verus! {

/// Announces a new suggestion.
#[derive(Clone, Debug, PartialEq, Eq)]
pub struct SuggestionCreated {
    pub suggestion: Address,
    pub author: Address,
    pub ts: i64,
}

/// Announces a new note.
#[derive(Clone, Debug, PartialEq, Eq)]
pub struct NoteUploaded {
    pub note: Address,
    pub author: Address,
    pub ipfs_hash: String,
}

/// Announces a new note request.
#[derive(Clone, Debug, PartialEq, Eq)]
pub struct RequestCreated {
    pub request: Address,
    pub author: Address,
    pub subject: String,
}

} // verus!
