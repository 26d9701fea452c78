//! The fee that gates the creation of suggestions and note requests.

use crate::address::Address;
use crate::error::AppError;
use vstd::prelude::*;

verus! {

/// What the creation of a suggestion or of a note request costs.
pub const CREATION_FEE: u64 = 10_000;

/// An identity together with the funds it controls.
#[derive(Clone, Copy, Debug, PartialEq, Eq)]
pub struct Wallet {
    pub key: Address,
    pub lamports: u64,
}

/// The shared account that collects the creation fees. Its balance is wider
/// than a wallet's: it has room for a fee from every record that a ledger can
/// hold.
#[derive(Clone, Copy, Debug, PartialEq, Eq)]
pub struct Treasury {
    pub key: Address,
    pub lamports: u128,
}

/// The most that the treasury of a ledger with `records` records can hold: one
/// fee for each.
pub open spec fn fees_of(records: nat) -> int {
    CREATION_FEE * records
}

/// Moves the creation fee from the payer to the treasury, or refuses where the
/// payer cannot cover it.
pub fn charge(payer: &mut Wallet, treasury: &mut Treasury) -> (r: Result<(), AppError>)
    requires
        old(treasury).lamports + CREATION_FEE <= u128::MAX,
    ensures
        final(payer).key == old(payer).key,
        final(treasury).key == old(treasury).key,
        old(payer).lamports < CREATION_FEE ==> r == Err::<(), AppError>(AppError::InsufficientFunds)
            && final(payer).lamports == old(payer).lamports && final(treasury).lamports == old(
            treasury,
        ).lamports,
        old(payer).lamports >= CREATION_FEE ==> r == Ok::<(), AppError>(()) && final(payer).lamports
            == old(payer).lamports - CREATION_FEE && final(treasury).lamports == old(
            treasury,
        ).lamports + CREATION_FEE,
{
    if payer.lamports < CREATION_FEE {
        return Err(AppError::InsufficientFunds);
    }
    payer.lamports = payer.lamports - CREATION_FEE;
    treasury.lamports = treasury.lamports + CREATION_FEE as u128;
    Ok(())
}

} // verus!
