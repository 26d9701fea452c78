//! Identities, and the derivation of record addresses from seeds.

use vstd::prelude::*;
use vstd::slice::slice_to_vec;
use vstd::string::StrSliceExecFns;
use vstd::string::StringSliceAdditionalSpecFns;

verus! {

/// A 32-byte identity: an author's key, a record's address, or a program's id.
#[derive(Clone, Copy, Debug, PartialEq, Eq, Hash)]
pub struct Address {
    pub bytes: [u8; 32],
}

/// The id under which the campus program is deployed.
pub const PROGRAM_ID: [u8; 32] = [
    218, 7, 92, 178, 255, 94, 198, 129, 118, 19, 222, 83, 11, 105, 42, 135,
    53, 71, 119, 105, 218, 71, 67, 12, 189, 129, 84, 51, 92, 74, 131, 39,
];

impl View for Address {
    type V = Seq<u8>;

    open spec fn view(&self) -> Seq<u8> {
        self.bytes@
    }
}

impl Address {
    /// Whether two addresses hold the same bytes.
    pub fn same(&self, other: &Address) -> (r: bool)
        ensures
            r == (self@ == other@),
    {
        let mut i: usize = 0;
        while i < 32
            invariant
                i <= 32,
                forall|j: int| 0 <= j < i ==> self.bytes@[j] == other.bytes@[j],
            decreases 32 - i,
        {
            if self.bytes[i] != other.bytes[i] {
                return false;
            }
            i += 1;
        }
        assert(self@ =~= other@);
        true
    }

    /// The address as a vector of its 32 bytes.
    pub fn to_vec(&self) -> (v: Vec<u8>)
        ensures
            v@ == self@,
    {
        slice_to_vec(self.bytes.as_slice())
    }
}

/// The address and the one-byte proof that the runtime derives for a list of
/// seeds under a program id, or `None` where it derives none.
pub uninterp spec fn program_address(seeds: Seq<Seq<u8>>, program_id: Seq<u8>) -> Option<
    (Seq<u8>, u8),
>;

/// The byte contents of a list of seeds.
pub open spec fn seed_bytes(seeds: Seq<Vec<u8>>) -> Seq<Seq<u8>> {
    Seq::new(seeds.len(), |i: int| seeds[i]@)
}

/// Some seed is longer than the 32 bytes that a derivation takes per seed.
pub open spec fn has_long_seed(seeds: Seq<Seq<u8>>) -> bool {
    exists|i: int| 0 <= i < seeds.len() && (#[trigger] seeds[i]).len() > 32
}

/// The view of a derivation's result.
pub open spec fn derived_view(d: Option<(Address, u8)>) -> Option<(Seq<u8>, u8)> {
    match d {
        Some((a, b)) => Some((a@, b)),
        None => None,
    }
}

/// Calls `Pubkey::try_find_program_address` of `anchor_lang` (re-exported from
/// `solana_program`). The contract names the outcome: it is the
/// program-derived address of these seeds under this program id together with
/// its bump, or `None` where the search finds no address. It claims one thing
/// more of that function: it finds none where a seed is longer than 32 bytes.
#[verifier::external_body]
fn find_program_address(seeds: &Vec<Vec<u8>>, program_id: &Address) -> (r: Option<(Address, u8)>)
    ensures
        derived_view(r) == program_address(seed_bytes(seeds@), program_id@),
        has_long_seed(seed_bytes(seeds@)) ==> r is None,
{
    let parts: Vec<&[u8]> = seeds.iter().map(|s| s.as_slice()).collect();
    let id = anchor_lang::prelude::Pubkey::new_from_array(program_id.bytes);
    anchor_lang::prelude::Pubkey::try_find_program_address(&parts, &id).map(
        |(key, bump)| (Address { bytes: key.to_bytes() }, bump),
    )
}

/// Namespace tag of suggestions.
pub open spec fn suggestion_tag() -> Seq<u8> {
    "suggestion".spec_bytes()
}

/// Namespace tag of notes.
pub open spec fn note_tag() -> Seq<u8> {
    "note".spec_bytes()
}

/// Namespace tag of note requests.
pub open spec fn request_tag() -> Seq<u8> {
    "request".spec_bytes()
}

/// Namespace tag of the shared treasury.
pub open spec fn treasury_tag() -> Seq<u8> {
    "treasury".spec_bytes()
}

/// The eight bytes that stand for a timestamp in a derivation, lowest first.
pub open spec fn timestamp_seed(ts: i64) -> Seq<u8> {
    vstd::bytes::spec_u64_to_le_bytes(ts as u64)
}

/// Where a record with this namespace tag, author and distinguishing value
/// lives, and the proof byte that makes the address canonical.
pub open spec fn record_address(
    program_id: Seq<u8>,
    tag: Seq<u8>,
    author: Seq<u8>,
    distinguishing: Seq<u8>,
) -> Option<(Seq<u8>, u8)> {
    program_address(seq![tag, author, distinguishing], program_id)
}

/// Where the suggestion that `author` files at time `ts` lives.
pub open spec fn suggestion_address(program_id: Seq<u8>, author: Seq<u8>, ts: i64) -> Option<
    (Seq<u8>, u8),
> {
    record_address(program_id, suggestion_tag(), author, timestamp_seed(ts))
}

/// Where the note of `author` with this content reference lives.
pub open spec fn note_address(program_id: Seq<u8>, author: Seq<u8>, ipfs_hash: Seq<char>) -> Option<
    (Seq<u8>, u8),
> {
    record_address(program_id, note_tag(), author, vstd::utf8::encode_utf8(ipfs_hash))
}

/// Where the request of `author` for this subject lives.
pub open spec fn request_address(program_id: Seq<u8>, author: Seq<u8>, subject: Seq<char>) -> Option<
    (Seq<u8>, u8),
> {
    record_address(program_id, request_tag(), author, vstd::utf8::encode_utf8(subject))
}

/// Where the shared treasury of a program lives.
pub open spec fn treasury_address(program_id: Seq<u8>) -> Option<(Seq<u8>, u8)> {
    program_address(seq![treasury_tag()], program_id)
}

/// Derives the address of a record from its namespace tag, its author and its
/// distinguishing bytes.
pub fn derive(program_id: &Address, tag: &str, author: &Address, distinguishing: Vec<u8>) -> (r:
    Option<(Address, u8)>)
    ensures
        derived_view(r) == record_address(
            program_id@,
            tag.spec_bytes(),
            author@,
            distinguishing@,
        ),
        distinguishing@.len() > 32 ==> r is None,
{
    let mut seeds: Vec<Vec<u8>> = Vec::new();
    seeds.push(tag.as_bytes_vec());
    seeds.push(author.to_vec());
    seeds.push(distinguishing);
    assert(seed_bytes(seeds@) =~= seq![tag.spec_bytes(), author@, distinguishing@]);
    assert(seed_bytes(seeds@)[2] == distinguishing@);
    find_program_address(&seeds, program_id)
}

/// Derives the address of the suggestion that `author` files at time `ts`.
pub fn derive_suggestion_address(program_id: &Address, author: &Address, ts: i64) -> (r: Option<
    (Address, u8),
>)
    ensures
        derived_view(r) == suggestion_address(program_id@, author@, ts),
{
    derive(program_id, "suggestion", author, vstd::bytes::u64_to_le_bytes(ts as u64))
}

/// Derives the address of the note of `author` with this content reference.
pub fn derive_note_address(program_id: &Address, author: &Address, ipfs_hash: &str) -> (r: Option<
    (Address, u8),
>)
    ensures
        derived_view(r) == note_address(program_id@, author@, ipfs_hash@),
        vstd::utf8::encode_utf8(ipfs_hash@).len() > 32 ==> r is None,
{
    derive(program_id, "note", author, ipfs_hash.as_bytes_vec())
}

/// Derives the address of the request of `author` for this subject.
pub fn derive_request_address(program_id: &Address, author: &Address, subject: &str) -> (r: Option<
    (Address, u8),
>)
    ensures
        derived_view(r) == request_address(program_id@, author@, subject@),
        vstd::utf8::encode_utf8(subject@).len() > 32 ==> r is None,
{
    derive(program_id, "request", author, subject.as_bytes_vec())
}

/// Derives the address of the shared treasury of a program.
pub fn derive_treasury_address(program_id: &Address) -> (r: Option<(Address, u8)>)
    ensures
        derived_view(r) == treasury_address(program_id@),
{
    let mut seeds: Vec<Vec<u8>> = Vec::new();
    seeds.push("treasury".as_bytes_vec());
    assert(seed_bytes(seeds@) =~= seq![treasury_tag()]);
    find_program_address(&seeds, program_id)
}

} // verus!
