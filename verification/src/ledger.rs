//! The four operations on the ledger and what each of them does.

use crate::address::{
    derive_note_address, derive_request_address, derive_suggestion_address, derived_view,
    note_address, request_address, suggestion_address, Address,
};
use crate::error::AppError;
use crate::events::{NoteUploaded, RequestCreated, SuggestionCreated};
use crate::fee::{charge, Wallet, CREATION_FEE};
use crate::records::{
    fresh_note, fresh_request, fresh_suggestion, note_in_slots, request_in_slots,
    suggestion_in_slots, Note, NoteRequest, Record, RecordView, Suggestion,
};
use crate::validate::text_len;
use crate::store::{is_suggestion, upvoted, votes, Ledger};
use crate::validate::{
    note_check, request_check, suggestion_check, validate_note, validate_request,
    validate_suggestion,
};
use vstd::prelude::*;

verus! {

/// Who files a suggestion and pays for it.
#[derive(Clone, Copy, Debug, PartialEq, Eq)]
pub struct CreateSuggestion {
    pub user: Wallet,
}

/// Which suggestion receives a vote.
#[derive(Clone, Copy, Debug, PartialEq, Eq)]
pub struct UpvoteSuggestion {
    pub suggestion: Address,
}

/// Who uploads a note.
#[derive(Clone, Copy, Debug, PartialEq, Eq)]
pub struct UploadNote {
    pub user: Wallet,
}

/// Who files a note request and pays for it.
#[derive(Clone, Copy, Debug, PartialEq, Eq)]
pub struct CreateRequest {
    pub user: Wallet,
}

/// How the creation of a record ends: the first gate that refuses it, or the
/// address and proof byte it is stored under. The gates are, in order: the
/// field rules, the fee, the derivation, the address being free, and each
/// text fitting its slot.
pub open spec fn creation_verdict(
    checked: Result<(), AppError>,
    fee: bool,
    balance: u64,
    derived: Option<(Seq<u8>, u8)>,
    records: Map<Seq<u8>, RecordView>,
    fits: bool,
) -> Result<(Seq<u8>, u8), AppError> {
    if let Err(e) = checked {
        Err(e)
    } else if fee && balance < CREATION_FEE {
        Err(AppError::InsufficientFunds)
    } else if let Some((a, b)) = derived {
        if records.dom().contains(a) {
            Err(AppError::AddressCollision)
        } else if !fits {
            Err(AppError::SizeMismatch)
        } else {
            Ok((a, b))
        }
    } else {
        Err(AppError::PdaMismatch)
    }
}

/// What filing a suggestion does, given the outcome of the derivation: on any
/// refusal nothing changes; otherwise the fee moves from the author to the
/// treasury, the suggestion is stored with no votes at the derived address,
/// and the announcement names that address, the author and the timestamp.
pub open spec fn suggestion_filed(
    pre: Ledger,
    payer: Wallet,
    derived: Option<(Seq<u8>, u8)>,
    title: Seq<char>,
    description: Seq<char>,
    category: u8,
    ts: i64,
    post: Ledger,
    payer_after: Wallet,
    r: Result<SuggestionCreated, AppError>,
) -> bool {
    match creation_verdict(
        suggestion_check(title, description, category),
        true,
        payer.lamports,
        derived,
        pre.records(),
        suggestion_in_slots(title, description),
    ) {
        Err(e) => r == Err::<SuggestionCreated, AppError>(e) && post == pre && payer_after == payer,
        Ok((a, b)) => {
            &&& r matches Ok(ev) && ev.suggestion@ == a && ev.author == payer.key && ev.ts == ts
            &&& post.wf()
            &&& post.program_id == pre.program_id
            &&& post.treasury.key == pre.treasury.key
            &&& post.treasury.lamports == pre.treasury.lamports + CREATION_FEE
            &&& payer_after.key == payer.key
            &&& payer_after.lamports == payer.lamports - CREATION_FEE
            &&& post.records() == pre.records().insert(
                a,
                RecordView::Suggestion(
                    fresh_suggestion(payer.key@, title, description, category, ts, b),
                ),
            )
        },
    }
}

/// What uploading a note does, given the outcome of the derivation: on any
/// refusal nothing changes; otherwise the note is stored at the derived
/// address, free of charge, and the announcement names that address, the
/// author and the content reference.
pub open spec fn note_filed(
    pre: Ledger,
    payer: Wallet,
    derived: Option<(Seq<u8>, u8)>,
    subject: Seq<char>,
    title: Seq<char>,
    ipfs_hash: Seq<char>,
    now: i64,
    post: Ledger,
    r: Result<NoteUploaded, AppError>,
) -> bool {
    match creation_verdict(
        note_check(subject, title, ipfs_hash),
        false,
        payer.lamports,
        derived,
        pre.records(),
        note_in_slots(subject, title, ipfs_hash),
    ) {
        Err(e) => r == Err::<NoteUploaded, AppError>(e) && post == pre,
        Ok((a, b)) => {
            &&& r matches Ok(ev) && ev.note@ == a && ev.author == payer.key && ev.ipfs_hash@
                == ipfs_hash
            &&& post.wf()
            &&& post.program_id == pre.program_id
            &&& post.treasury == pre.treasury
            &&& post.records() == pre.records().insert(
                a,
                RecordView::Note(fresh_note(payer.key@, subject, title, ipfs_hash, now, b)),
            )
        },
    }
}

/// What filing a note request does, given the outcome of the derivation: on
/// any refusal nothing changes; otherwise the fee moves from the author to the
/// treasury, the open request is stored at the derived address, and the
/// announcement names that address, the author and the subject.
pub open spec fn request_filed(
    pre: Ledger,
    payer: Wallet,
    derived: Option<(Seq<u8>, u8)>,
    subject: Seq<char>,
    description: Seq<char>,
    now: i64,
    post: Ledger,
    payer_after: Wallet,
    r: Result<RequestCreated, AppError>,
) -> bool {
    match creation_verdict(
        request_check(subject, description),
        true,
        payer.lamports,
        derived,
        pre.records(),
        request_in_slots(subject, description),
    ) {
        Err(e) => r == Err::<RequestCreated, AppError>(e) && post == pre && payer_after == payer,
        Ok((a, b)) => {
            &&& r matches Ok(ev) && ev.request@ == a && ev.author == payer.key && ev.subject@
                == subject
            &&& post.wf()
            &&& post.program_id == pre.program_id
            &&& post.treasury.key == pre.treasury.key
            &&& post.treasury.lamports == pre.treasury.lamports + CREATION_FEE
            &&& payer_after.key == payer.key
            &&& payer_after.lamports == payer.lamports - CREATION_FEE
            &&& post.records() == pre.records().insert(
                a,
                RecordView::Request(fresh_request(payer.key@, subject, description, now, b)),
            )
        },
    }
}

/// Files a suggestion at an address that was derived beforehand.
pub fn settle_suggestion(
    ledger: &mut Ledger,
    ctx: &mut CreateSuggestion,
    derived: Option<(Address, u8)>,
    title: String,
    description: String,
    category: u8,
    ts: i64,
) -> (r: Result<SuggestionCreated, AppError>)
    requires
        old(ledger).wf(),
    ensures
        final(ledger).wf(),
        suggestion_filed(
            *old(ledger),
            old(ctx).user,
            derived_view(derived),
            title@,
            description@,
            category,
            ts,
            *final(ledger),
            final(ctx).user,
            r,
        ),
{
    if let Err(e) = validate_suggestion(title.as_str(), description.as_str(), category) {
        return Err(e);
    }
    if ctx.user.lamports < CREATION_FEE {
        return Err(AppError::InsufficientFunds);
    }
    let (address, bump) = match derived {
        Some(found) => found,
        None => {
            return Err(AppError::PdaMismatch);
        },
    };
    let author = ctx.user.key;
    let record = Record::Suggestion(
        Suggestion::new(author, title, description, category, ts, bump),
    );
    if let Err(e) = ledger.create(address, record) {
        return Err(e);
    }
    proof {
        // a vector's length fits the machine word, so one fee for each record fits the treasury
        assert(ledger.entries@.len() == ledger.entries.len());
    }
    match charge(&mut ctx.user, &mut ledger.treasury) {
        Ok(()) => Ok(SuggestionCreated { suggestion: address, author, ts }),
        Err(e) => Err(e),
    }
}

/// Files a suggestion: checks its fields, charges the fee, derives the address
/// from the author and the timestamp, stores the record and returns the
/// announcement.
pub fn create_suggestion(
    ledger: &mut Ledger,
    ctx: &mut CreateSuggestion,
    title: String,
    description: String,
    category: u8,
    ts: i64,
) -> (r: Result<SuggestionCreated, AppError>)
    requires
        old(ledger).wf(),
    ensures
        final(ledger).wf(),
        suggestion_filed(
            *old(ledger),
            old(ctx).user,
            suggestion_address(old(ledger).program_id@, old(ctx).user.key@, ts),
            title@,
            description@,
            category,
            ts,
            *final(ledger),
            final(ctx).user,
            r,
        ),
{
    let derived = derive_suggestion_address(&ledger.program_id, &ctx.user.key, ts);
    settle_suggestion(ledger, ctx, derived, title, description, category, ts)
}

/// Stores a note at an address that was derived beforehand.
pub fn settle_note(
    ledger: &mut Ledger,
    ctx: &UploadNote,
    derived: Option<(Address, u8)>,
    subject: String,
    title: String,
    ipfs_hash: String,
    now: i64,
) -> (r: Result<NoteUploaded, AppError>)
    requires
        old(ledger).wf(),
    ensures
        final(ledger).wf(),
        note_filed(
            *old(ledger),
            ctx.user,
            derived_view(derived),
            subject@,
            title@,
            ipfs_hash@,
            now,
            *final(ledger),
            r,
        ),
{
    if let Err(e) = validate_note(subject.as_str(), title.as_str(), ipfs_hash.as_str()) {
        return Err(e);
    }
    let (address, bump) = match derived {
        Some(found) => found,
        None => {
            return Err(AppError::PdaMismatch);
        },
    };
    let author = ctx.user.key;
    let reference = ipfs_hash.clone();
    let record = Record::Note(Note::new(author, subject, title, ipfs_hash, now, bump));
    if let Err(e) = ledger.create(address, record) {
        return Err(e);
    }
    Ok(NoteUploaded { note: address, author, ipfs_hash: reference })
}

/// Uploads a note: checks its fields, derives the address from the author and
/// the content reference, stores the record with the time `now` and returns
/// the announcement. No fee is charged.
pub fn upload_note(
    ledger: &mut Ledger,
    ctx: &UploadNote,
    subject: String,
    title: String,
    ipfs_hash: String,
    now: i64,
) -> (r: Result<NoteUploaded, AppError>)
    requires
        old(ledger).wf(),
    ensures
        final(ledger).wf(),
        note_filed(
            *old(ledger),
            ctx.user,
            note_address(old(ledger).program_id@, ctx.user.key@, ipfs_hash@),
            subject@,
            title@,
            ipfs_hash@,
            now,
            *final(ledger),
            r,
        ),
        text_len(ipfs_hash@) > 32 ==> r is Err && *final(ledger) == *old(ledger),
        text_len(ipfs_hash@) > 32 && note_check(subject@, title@, ipfs_hash@) is Ok ==> r == Err::<
            NoteUploaded,
            AppError,
        >(AppError::PdaMismatch),
{
    let derived = derive_note_address(&ledger.program_id, &ctx.user.key, ipfs_hash.as_str());
    settle_note(ledger, ctx, derived, subject, title, ipfs_hash, now)
}

/// Files a note request at an address that was derived beforehand.
pub fn settle_request(
    ledger: &mut Ledger,
    ctx: &mut CreateRequest,
    derived: Option<(Address, u8)>,
    subject: String,
    description: String,
    now: i64,
) -> (r: Result<RequestCreated, AppError>)
    requires
        old(ledger).wf(),
    ensures
        final(ledger).wf(),
        request_filed(
            *old(ledger),
            old(ctx).user,
            derived_view(derived),
            subject@,
            description@,
            now,
            *final(ledger),
            final(ctx).user,
            r,
        ),
{
    if let Err(e) = validate_request(subject.as_str(), description.as_str()) {
        return Err(e);
    }
    if ctx.user.lamports < CREATION_FEE {
        return Err(AppError::InsufficientFunds);
    }
    let (address, bump) = match derived {
        Some(found) => found,
        None => {
            return Err(AppError::PdaMismatch);
        },
    };
    let author = ctx.user.key;
    let topic = subject.clone();
    let record = Record::Request(NoteRequest::new(author, subject, description, now, bump));
    if let Err(e) = ledger.create(address, record) {
        return Err(e);
    }
    proof {
        // a vector's length fits the machine word, so one fee for each record fits the treasury
        assert(ledger.entries@.len() == ledger.entries.len());
    }
    match charge(&mut ctx.user, &mut ledger.treasury) {
        Ok(()) => Ok(RequestCreated { request: address, author, subject: topic }),
        Err(e) => Err(e),
    }
}

/// Files a note request: checks its fields, charges the fee, derives the
/// address from the author and the subject, stores the open request with the
/// time `now` and returns the announcement.
pub fn create_request(
    ledger: &mut Ledger,
    ctx: &mut CreateRequest,
    subject: String,
    description: String,
    now: i64,
) -> (r: Result<RequestCreated, AppError>)
    requires
        old(ledger).wf(),
    ensures
        final(ledger).wf(),
        request_filed(
            *old(ledger),
            old(ctx).user,
            request_address(old(ledger).program_id@, old(ctx).user.key@, subject@),
            subject@,
            description@,
            now,
            *final(ledger),
            final(ctx).user,
            r,
        ),
        text_len(subject@) > 32 ==> r is Err && *final(ledger) == *old(ledger) && final(ctx).user
            == old(ctx).user,
{
    let derived = derive_request_address(&ledger.program_id, &ctx.user.key, subject.as_str());
    settle_request(ledger, ctx, derived, subject, description, now)
}

/// Adds one vote to the suggestion at the given address, whoever asks.
pub fn upvote_suggestion(ledger: &mut Ledger, ctx: &UpvoteSuggestion) -> (r: Result<(), AppError>)
    requires
        old(ledger).wf(),
        is_suggestion(old(ledger).records(), ctx.suggestion@) ==> votes(
            old(ledger).records(),
            ctx.suggestion@,
        ) < u64::MAX,
    ensures
        final(ledger).wf(),
        final(ledger).program_id == old(ledger).program_id,
        final(ledger).treasury == old(ledger).treasury,
        final(ledger).records() == upvoted(old(ledger).records(), ctx.suggestion@),
        r == (if is_suggestion(old(ledger).records(), ctx.suggestion@) {
            Ok::<(), AppError>(())
        } else {
            Err::<(), AppError>(AppError::NotFound)
        }),
        r is Err ==> *final(ledger) == *old(ledger),
{
    ledger.upvote(&ctx.suggestion)
}

} // verus!
