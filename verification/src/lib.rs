//! Ledger logic of a campus community board: suggestions that can be upvoted,
//! shared study notes and requests for notes.
//!
//! Every record lives at an address derived from a namespace tag, its author
//! and one distinguishing value, so that anybody can recompute where a record
//! is stored. Creating a suggestion or a request costs a small fee that goes to
//! a shared treasury.

pub mod address;
pub mod error;
pub mod events;
pub mod fee;
pub mod laws;
pub mod ledger;
pub mod records;
pub mod store;
pub mod validate;

pub use address::{Address, PROGRAM_ID};
pub use error::AppError;
pub use events::{NoteUploaded, RequestCreated, SuggestionCreated};
pub use fee::{Treasury, Wallet};
pub use ledger::{
    create_request, create_suggestion, upload_note, upvote_suggestion, CreateRequest,
    CreateSuggestion, UploadNote, UpvoteSuggestion,
};
pub use records::{Note, NoteRequest, Record, Suggestion};
pub use store::Ledger;
