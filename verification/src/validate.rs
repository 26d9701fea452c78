//! The rules on the fields of a record.

use crate::error::AppError;
use vstd::prelude::*;
use vstd::utf8::encode_utf8;

verus! {

pub const MIN_TITLE_LEN: usize = 3;

pub const MAX_TITLE_LEN: usize = 100;

pub const MIN_DESCRIPTION_LEN: usize = 10;

pub const MAX_DESCRIPTION_LEN: usize = 500;

pub const MIN_SUBJECT_LEN: usize = 2;

pub const MAX_SUBJECT_LEN: usize = 50;

pub const MAX_IPFS_HASH_LEN: usize = 64;

pub const MAX_CATEGORY: u8 = 4;

/// The length of a text as it is stored: the number of bytes of its UTF-8 form.
pub open spec fn text_len(text: Seq<char>) -> nat {
    encode_utf8(text).len()
}

pub open spec fn title_ok(title: Seq<char>) -> bool {
    3 <= text_len(title) <= 100
}

pub open spec fn description_ok(description: Seq<char>) -> bool {
    10 <= text_len(description) <= 500
}

pub open spec fn subject_ok(subject: Seq<char>) -> bool {
    2 <= text_len(subject) <= 50
}

pub open spec fn ipfs_hash_ok(ipfs_hash: Seq<char>) -> bool {
    text_len(ipfs_hash) > 0
}

pub open spec fn category_ok(category: u8) -> bool {
    category <= 4
}

/// The stored length of a text.
pub fn stored_len(text: &str) -> (n: usize)
    ensures
        n == text_len(text@),
{
    text.as_bytes().len()
}

/// The verdict on the fields of a suggestion: the first rule that is broken,
/// taken in the order title, description, category.
pub open spec fn suggestion_check(title: Seq<char>, description: Seq<char>, category: u8) -> Result<
    (),
    AppError,
> {
    if !title_ok(title) {
        Err(AppError::InvalidTitle)
    } else if !description_ok(description) {
        Err(AppError::InvalidDescription)
    } else if !category_ok(category) {
        Err(AppError::InvalidCategory)
    } else {
        Ok(())
    }
}

/// The verdict on the fields of a note: the first rule that is broken, taken
/// in the order title, subject, content reference.
pub open spec fn note_check(subject: Seq<char>, title: Seq<char>, ipfs_hash: Seq<char>) -> Result<
    (),
    AppError,
> {
    if !title_ok(title) {
        Err(AppError::InvalidTitle)
    } else if !subject_ok(subject) {
        Err(AppError::InvalidSubject)
    } else if !ipfs_hash_ok(ipfs_hash) {
        Err(AppError::InvalidIpfsHash)
    } else {
        Ok(())
    }
}

/// The verdict on the fields of a request: the first rule that is broken,
/// taken in the order subject, description.
pub open spec fn request_check(subject: Seq<char>, description: Seq<char>) -> Result<
    (),
    AppError,
> {
    if !subject_ok(subject) {
        Err(AppError::InvalidSubject)
    } else if !description_ok(description) {
        Err(AppError::InvalidDescription)
    } else {
        Ok(())
    }
}

/// Checks the fields of a suggestion.
pub fn validate_suggestion(title: &str, description: &str, category: u8) -> (r: Result<
    (),
    AppError,
>)
    ensures
        r == suggestion_check(title@, description@, category),
{
    if !(stored_len(title) >= MIN_TITLE_LEN && stored_len(title) <= MAX_TITLE_LEN) {
        return Err(AppError::InvalidTitle);
    }
    if !(stored_len(description) >= MIN_DESCRIPTION_LEN && stored_len(description) <= MAX_DESCRIPTION_LEN) {
        return Err(AppError::InvalidDescription);
    }
    if category > MAX_CATEGORY {
        return Err(AppError::InvalidCategory);
    }
    Ok(())
}

/// Checks the fields of a note.
pub fn validate_note(subject: &str, title: &str, ipfs_hash: &str) -> (r: Result<(), AppError>)
    ensures
        r == note_check(subject@, title@, ipfs_hash@),
{
    if !(stored_len(title) >= MIN_TITLE_LEN && stored_len(title) <= MAX_TITLE_LEN) {
        return Err(AppError::InvalidTitle);
    }
    if !(stored_len(subject) >= MIN_SUBJECT_LEN && stored_len(subject) <= MAX_SUBJECT_LEN) {
        return Err(AppError::InvalidSubject);
    }
    if !(stored_len(ipfs_hash) > 0) {
        return Err(AppError::InvalidIpfsHash);
    }
    Ok(())
}

/// Checks the fields of a note request.
pub fn validate_request(subject: &str, description: &str) -> (r: Result<(), AppError>)
    ensures
        r == request_check(subject@, description@),
{
    if !(stored_len(subject) >= MIN_SUBJECT_LEN && stored_len(subject) <= MAX_SUBJECT_LEN) {
        return Err(AppError::InvalidSubject);
    }
    if !(stored_len(description) >= MIN_DESCRIPTION_LEN && stored_len(description) <= MAX_DESCRIPTION_LEN) {
        return Err(AppError::InvalidDescription);
    }
    Ok(())
}

} // verus!
