//! The refusals that the ledger's operations report.

use vstd::prelude::*;

verus! {

/// Why an operation on the ledger was refused.
#[derive(Clone, Copy, Debug, PartialEq, Eq, Structural)]
pub enum AppError {
    /// The title is shorter than 3 or longer than 100 bytes.
    InvalidTitle,
    /// The description is shorter than 10 or longer than 500 bytes.
    InvalidDescription,
    /// The category code is above 4.
    InvalidCategory,
    /// The subject is shorter than 2 or longer than 50 bytes.
    InvalidSubject,
    /// The content reference is empty.
    InvalidIpfsHash,
    /// No address can be derived from the record's seeds.
    PdaMismatch,
    /// The caller may not perform the operation.
    Unauthorized,
    /// The environment could not tell the time.
    ClockUnavailable,
    /// The payer cannot cover the creation fee.
    InsufficientFunds,
    /// The derived address already holds a record.
    AddressCollision,
    /// A text of the record exceeds the slot declared for it.
    SizeMismatch,
    /// No suggestion is stored at the address.
    NotFound,
}

impl AppError {
    /// The message shown to a user for this error.
    pub fn message(&self) -> (text: &'static str)
        ensures
            text@ == self.message_text(),
    {
        match self {
            AppError::InvalidTitle => "Invalid title length",
            AppError::InvalidDescription => "Invalid description length",
            AppError::InvalidCategory => "Invalid category value",
            AppError::InvalidSubject => "Invalid subject length",
            AppError::InvalidIpfsHash => "Invalid IPFS hash",
            AppError::PdaMismatch => "PDA mismatch",
            AppError::Unauthorized => "Unauthorized",
            AppError::ClockUnavailable => "Clock unavailable",
            AppError::InsufficientFunds => "Insufficient funds",
            AppError::AddressCollision => "Address collision",
            AppError::SizeMismatch => "Size mismatch",
            AppError::NotFound => "Not found",
        }
    }

    pub open spec fn message_text(&self) -> Seq<char> {
        match self {
            AppError::InvalidTitle => "Invalid title length"@,
            AppError::InvalidDescription => "Invalid description length"@,
            AppError::InvalidCategory => "Invalid category value"@,
            AppError::InvalidSubject => "Invalid subject length"@,
            AppError::InvalidIpfsHash => "Invalid IPFS hash"@,
            AppError::PdaMismatch => "PDA mismatch"@,
            AppError::Unauthorized => "Unauthorized"@,
            AppError::ClockUnavailable => "Clock unavailable"@,
            AppError::InsufficientFunds => "Insufficient funds"@,
            AppError::AddressCollision => "Address collision"@,
            AppError::SizeMismatch => "Size mismatch"@,
            AppError::NotFound => "Not found"@,
        }
    }
}

} // verus!
