use anchor_lang::prelude::Pubkey;
use campus_dapp::address::{
    derive_note_address, derive_request_address, derive_suggestion_address,
    derive_treasury_address,
};
use campus_dapp::{Address, PROGRAM_ID};
use std::str::FromStr;

fn program() -> Address {
    Address { bytes: PROGRAM_ID }
}

fn author() -> Address {
    Address { bytes: [7u8; 32] }
}

fn expected(seeds: &[&[u8]]) -> (Address, u8) {
    let (key, bump) = Pubkey::find_program_address(seeds, &Pubkey::new_from_array(PROGRAM_ID));
    (Address { bytes: key.to_bytes() }, bump)
}

#[test]
fn program_id_is_the_deployed_one() {
    let id = Pubkey::from_str("Fg6PaFpoGXkYsidMpWTK6W2BeZ7FEfcYkg476zPFsLnS").unwrap();
    assert_eq!(id.to_bytes(), PROGRAM_ID);
}

#[test]
fn suggestion_address_uses_tag_author_and_timestamp() {
    let ts: i64 = 1_700_000_000;
    let want = expected(&[b"suggestion", &author().bytes, &ts.to_le_bytes()]);
    let got = derive_suggestion_address(&program(), &author(), ts).unwrap();
    assert_eq!(got, want);
    assert_ne!(got.0, program());
    assert_ne!(got.0, author());
}

#[test]
fn negative_timestamp_is_seeded_in_twos_complement() {
    let ts: i64 = -5;
    let want = expected(&[b"suggestion", &author().bytes, &ts.to_le_bytes()]);
    assert_eq!(derive_suggestion_address(&program(), &author(), ts), Some(want));
}

#[test]
fn derivation_is_repeatable() {
    let a = derive_suggestion_address(&program(), &author(), 42);
    let b = derive_suggestion_address(&program(), &author(), 42);
    assert!(a.is_some());
    assert_eq!(a, b);
}

#[test]
fn different_inputs_give_different_addresses() {
    let a = derive_suggestion_address(&program(), &author(), 42).unwrap();
    let b = derive_suggestion_address(&program(), &author(), 43).unwrap();
    let c = derive_suggestion_address(&program(), &Address { bytes: [8u8; 32] }, 42).unwrap();
    assert_ne!(a.0, b.0);
    assert_ne!(a.0, c.0);
}

#[test]
fn note_address_uses_the_hash_bytes() {
    let want = expected(&[b"note", &author().bytes, b"QmHash"]);
    assert_eq!(derive_note_address(&program(), &author(), "QmHash"), Some(want));
}

#[test]
fn request_address_uses_the_subject_bytes() {
    let want = expected(&[b"request", &author().bytes, b"Algebra"]);
    assert_eq!(derive_request_address(&program(), &author(), "Algebra"), Some(want));
}

#[test]
fn treasury_address_uses_its_tag_alone() {
    let want = expected(&[b"treasury"]);
    assert_eq!(derive_treasury_address(&program()), Some(want));
}

#[test]
fn kinds_do_not_share_addresses() {
    let n = derive_note_address(&program(), &author(), "Algebra").unwrap();
    let r = derive_request_address(&program(), &author(), "Algebra").unwrap();
    assert_ne!(n.0, r.0);
}

#[test]
fn general_derivation_matches_the_kinds() {
    let got = campus_dapp::address::derive(&program(), "note", &author(), b"QmHash".to_vec());
    assert_eq!(got, derive_note_address(&program(), &author(), "QmHash"));
}

#[test]
fn seed_longer_than_32_bytes_derives_nothing() {
    let long = "h".repeat(33);
    assert_eq!(derive_note_address(&program(), &author(), &long), None);
    let fits = "h".repeat(32);
    assert!(derive_note_address(&program(), &author(), &fits).is_some());
}

#[test]
fn addresses_compare_by_bytes() {
    let a = Address { bytes: [1u8; 32] };
    let mut other = [1u8; 32];
    assert!(a.same(&Address { bytes: other }));
    other[31] = 2;
    assert!(!a.same(&Address { bytes: other }));
    assert_eq!(a.to_vec(), vec![1u8; 32]);
}
