//! Properties that hold across the ledger's operations.

use crate::address::suggestion_address;
use crate::error::AppError;
use crate::events::{NoteUploaded, SuggestionCreated};
use crate::fee::{Wallet, CREATION_FEE};
use crate::ledger::{creation_verdict, note_filed, suggestion_filed};
use crate::records::{
    fresh_suggestion, in_slots, note_in_slots, request_in_slots, space_of, stored_size,
    suggestion_in_slots, RecordView,
};
use crate::store::{at, index_in, is_suggestion, upvoted, voted, votes, Ledger};
use crate::validate::{note_check, request_check, suggestion_check, text_len, MAX_IPFS_HASH_LEN};
use vstd::prelude::*;

verus! {

/// The records after `n` votes for the suggestion at `a`.
pub open spec fn upvoted_times(records: Map<Seq<u8>, RecordView>, a: Seq<u8>, n: nat) -> Map<
    Seq<u8>,
    RecordView,
>
    decreases n,
{
    if n == 0 {
        records
    } else {
        upvoted(upvoted_times(records, a, (n - 1) as nat), a)
    }
}

/// A suggestion that was filed is stored at the address that deriving from the
/// same program, author and timestamp yields, and deriving again afterwards
/// yields that address once more.
pub proof fn law_suggestion_lives_at_derived_address(
    pre: Ledger,
    payer: Wallet,
    title: Seq<char>,
    description: Seq<char>,
    category: u8,
    ts: i64,
    post: Ledger,
    payer_after: Wallet,
    r: Result<SuggestionCreated, AppError>,
)
    requires
        suggestion_filed(
            pre,
            payer,
            suggestion_address(pre.program_id@, payer.key@, ts),
            title,
            description,
            category,
            ts,
            post,
            payer_after,
            r,
        ),
        r is Ok,
    ensures
        suggestion_address(post.program_id@, payer_after.key@, ts) == suggestion_address(
            pre.program_id@,
            payer.key@,
            ts,
        ),
        r matches Ok(ev) && suggestion_address(post.program_id@, payer_after.key@, ts) matches Some(
            (a, b),
        ) && ev.suggestion@ == a && post.records().dom().contains(a) && post.records()[a]
            == RecordView::Suggestion(
            fresh_suggestion(payer.key@, title, description, category, ts, b),
        ),
{
}

/// Whatever else holds, no record is created at an address that is taken.
pub proof fn law_taken_address_is_refused(
    checked: Result<(), AppError>,
    fee: bool,
    balance: u64,
    a: Seq<u8>,
    b: u8,
    records: Map<Seq<u8>, RecordView>,
    fits: bool,
)
    requires
        records.dom().contains(a),
    ensures
        creation_verdict(checked, fee, balance, Some((a, b)), records, fits) is Err,
        checked is Ok && !(fee && balance < CREATION_FEE) ==> creation_verdict(
            checked,
            fee,
            balance,
            Some((a, b)),
            records,
            fits,
        ) == Err::<(Seq<u8>, u8), AppError>(AppError::AddressCollision),
{
}

/// After a suggestion was filed, a second one by the same author with the
/// same timestamp is refused, whatever its other fields and whoever pays how
/// much, and leaves the ledger as it was; where its fields are valid and the
/// fee is covered, the refusal is an address collision.
pub proof fn law_duplicate_suggestion_is_refused(
    pre: Ledger,
    payer: Wallet,
    title: Seq<char>,
    description: Seq<char>,
    category: u8,
    ts: i64,
    mid: Ledger,
    payer_mid: Wallet,
    first: Result<SuggestionCreated, AppError>,
    again: Wallet,
    title2: Seq<char>,
    description2: Seq<char>,
    category2: u8,
    post: Ledger,
    again_after: Wallet,
    second: Result<SuggestionCreated, AppError>,
)
    requires
        suggestion_filed(
            pre,
            payer,
            suggestion_address(pre.program_id@, payer.key@, ts),
            title,
            description,
            category,
            ts,
            mid,
            payer_mid,
            first,
        ),
        first is Ok,
        again.key@ == payer.key@,
        suggestion_filed(
            mid,
            again,
            suggestion_address(mid.program_id@, again.key@, ts),
            title2,
            description2,
            category2,
            ts,
            post,
            again_after,
            second,
        ),
    ensures
        second is Err,
        post == mid,
        again_after == again,
        suggestion_check(title2, description2, category2) is Ok && again.lamports >= CREATION_FEE
            ==> second == Err::<SuggestionCreated, AppError>(AppError::AddressCollision),
{
}

/// `n` votes for a suggestion raise its count by exactly `n` and touch nothing
/// else, as long as the count fits its 64 bits.
pub proof fn law_votes_accumulate(records: Map<Seq<u8>, RecordView>, a: Seq<u8>, n: nat)
    requires
        is_suggestion(records, a),
        votes(records, a) + n <= u64::MAX,
    ensures
        is_suggestion(upvoted_times(records, a, n), a),
        votes(upvoted_times(records, a, n), a) == votes(records, a) + n,
        upvoted_times(records, a, n).dom() == records.dom(),
        forall|other: Seq<u8>|
            other != a ==> #[trigger] upvoted_times(records, a, n)[other] == records[other],
        n > 0 ==> upvoted_times(records, a, n) == upvoted_times(records, a, (n - 1) as nat).insert(
            a,
            voted(upvoted_times(records, a, (n - 1) as nat)[a]),
        ),
    decreases n,
{
    if n > 0 {
        law_votes_accumulate(records, a, (n - 1) as nat);
        let earlier = upvoted_times(records, a, (n - 1) as nat);
        assert(upvoted_times(records, a, n) == upvoted(earlier, a));
        assert(upvoted(earlier, a).dom() =~= records.dom());
    }
}

/// A creation that bears the fee is refused for want of funds whenever its
/// fields are valid and the payer holds less than the fee; one that bears no
/// fee ends the same way whatever the payer holds.
pub proof fn law_fee_gate(
    checked: Result<(), AppError>,
    balance: u64,
    other_balance: u64,
    derived: Option<(Seq<u8>, u8)>,
    records: Map<Seq<u8>, RecordView>,
    fits: bool,
)
    ensures
        checked is Ok && balance < CREATION_FEE ==> creation_verdict(
            checked,
            true,
            balance,
            derived,
            records,
            fits,
        ) == Err::<(Seq<u8>, u8), AppError>(AppError::InsufficientFunds),
        creation_verdict(checked, false, balance, derived, records, fits)
            == creation_verdict(checked, false, other_balance, derived, records, fits),
{
}

/// Fields that pass the checks are within their slots: always for a
/// suggestion and for a request, and for a note as soon as its content
/// reference has at most 64 bytes.
pub proof fn law_checked_fields_fit(
    title: Seq<char>,
    subject: Seq<char>,
    description: Seq<char>,
    ipfs_hash: Seq<char>,
    category: u8,
)
    ensures
        suggestion_check(title, description, category) is Ok ==> suggestion_in_slots(
            title,
            description,
        ),
        request_check(subject, description) is Ok ==> request_in_slots(subject, description),
        note_check(subject, title, ipfs_hash) is Ok ==> (note_in_slots(subject, title, ipfs_hash)
            <==> text_len(ipfs_hash) <= MAX_IPFS_HASH_LEN),
{
}

/// A record whose texts are within their slots takes no more bytes than the
/// space of its kind.
pub proof fn law_slots_bound_size(record: RecordView)
    requires
        in_slots(record),
    ensures
        stored_size(record) <= space_of(record),
{
}

/// Every stored record has its texts within their slots and takes no more
/// bytes than the space of its kind; a stored note's content reference has at
/// most 64 bytes.
pub proof fn law_stored_records_fit(ledger: Ledger, a: Seq<u8>)
    requires
        ledger.wf(),
        ledger.records().dom().contains(a),
    ensures
        in_slots(ledger.records()[a]),
        stored_size(ledger.records()[a]) <= space_of(ledger.records()[a]),
        ledger.records()[a] matches RecordView::Note(n) ==> text_len(n.ipfs_hash)
            <= MAX_IPFS_HASH_LEN,
{
    let k = index_in(ledger.entries@, a);
    assert(at(ledger.entries@, k, a));
    assert(in_slots(ledger.entries@[k].record@));
}

/// A note whose content reference is longer than 64 bytes is never stored,
/// wherever it would live and whatever its other fields.
pub proof fn law_long_reference_is_refused(
    pre: Ledger,
    payer: Wallet,
    derived: Option<(Seq<u8>, u8)>,
    subject: Seq<char>,
    title: Seq<char>,
    ipfs_hash: Seq<char>,
    now: i64,
    post: Ledger,
    r: Result<NoteUploaded, AppError>,
)
    requires
        note_filed(pre, payer, derived, subject, title, ipfs_hash, now, post, r),
        text_len(ipfs_hash) > MAX_IPFS_HASH_LEN,
    ensures
        r is Err,
        post == pre,
        derived matches Some((a, _)) ==> (note_check(subject, title, ipfs_hash) is Ok
            && !pre.records().dom().contains(a) ==> r == Err::<NoteUploaded, AppError>(
            AppError::SizeMismatch,
        )),
{
}

} // verus!
