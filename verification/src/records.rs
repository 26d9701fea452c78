//! The three kinds of record, their models and their stored sizes.

use crate::address::Address;
use crate::validate::{
    stored_len, text_len, MAX_DESCRIPTION_LEN, MAX_IPFS_HASH_LEN, MAX_SUBJECT_LEN, MAX_TITLE_LEN,
};
use vstd::prelude::*;

verus! {

/// Bytes that every stored record spends on its kind marker and its author.
pub const RECORD_HEADER: usize = 8 + 32;

/// Bytes that stand before each stored text and give its length.
pub const TEXT_PREFIX: usize = 4;

/// The space allotted to a suggestion: marker, author, title, description,
/// category, vote count, timestamp and proof byte.
pub const SUGGESTION_SPACE: usize = RECORD_HEADER + TEXT_PREFIX + MAX_TITLE_LEN + TEXT_PREFIX
    + MAX_DESCRIPTION_LEN + 1 + 8 + 8 + 1;

/// The space allotted to a note: marker, author, subject, title, content
/// reference, timestamp and proof byte.
pub const NOTE_SPACE: usize = RECORD_HEADER + TEXT_PREFIX + MAX_SUBJECT_LEN + TEXT_PREFIX
    + MAX_TITLE_LEN + TEXT_PREFIX + MAX_IPFS_HASH_LEN + 8 + 1;

/// The space allotted to a note request: marker, author, subject, description,
/// fulfilled flag, timestamp and proof byte.
pub const REQUEST_SPACE: usize = RECORD_HEADER + TEXT_PREFIX + MAX_SUBJECT_LEN + TEXT_PREFIX
    + MAX_DESCRIPTION_LEN + 1 + 8 + 1;

/// A proposal for improvement that others can upvote.
#[derive(Clone, Debug, PartialEq, Eq)]
pub struct Suggestion {
    pub author: Address,
    pub title: String,
    pub description: String,
    pub category: u8,
    pub vote_count: u64,
    pub timestamp: i64,
    pub bump: u8,
}

/// A reference to study notes kept in content-addressed storage.
#[derive(Clone, Debug, PartialEq, Eq)]
pub struct Note {
    pub author: Address,
    pub subject: String,
    pub title: String,
    pub ipfs_hash: String,
    pub timestamp: i64,
    pub bump: u8,
}

/// A request for notes on a subject.
#[derive(Clone, Debug, PartialEq, Eq)]
pub struct NoteRequest {
    pub author: Address,
    pub subject: String,
    pub description: String,
    pub is_fulfilled: bool,
    pub timestamp: i64,
    pub bump: u8,
}

/// One stored record of any kind.
#[derive(Clone, Debug, PartialEq, Eq)]
pub enum Record {
    Suggestion(Suggestion),
    Note(Note),
    Request(NoteRequest),
}

pub struct SuggestionView {
    pub author: Seq<u8>,
    pub title: Seq<char>,
    pub description: Seq<char>,
    pub category: u8,
    pub vote_count: u64,
    pub timestamp: i64,
    pub bump: u8,
}

pub struct NoteView {
    pub author: Seq<u8>,
    pub subject: Seq<char>,
    pub title: Seq<char>,
    pub ipfs_hash: Seq<char>,
    pub timestamp: i64,
    pub bump: u8,
}

pub struct NoteRequestView {
    pub author: Seq<u8>,
    pub subject: Seq<char>,
    pub description: Seq<char>,
    pub is_fulfilled: bool,
    pub timestamp: i64,
    pub bump: u8,
}

pub enum RecordView {
    Suggestion(SuggestionView),
    Note(NoteView),
    Request(NoteRequestView),
}

impl View for Suggestion {
    type V = SuggestionView;

    open spec fn view(&self) -> SuggestionView {
        SuggestionView {
            author: self.author@,
            title: self.title@,
            description: self.description@,
            category: self.category,
            vote_count: self.vote_count,
            timestamp: self.timestamp,
            bump: self.bump,
        }
    }
}

impl View for Note {
    type V = NoteView;

    open spec fn view(&self) -> NoteView {
        NoteView {
            author: self.author@,
            subject: self.subject@,
            title: self.title@,
            ipfs_hash: self.ipfs_hash@,
            timestamp: self.timestamp,
            bump: self.bump,
        }
    }
}

impl View for NoteRequest {
    type V = NoteRequestView;

    open spec fn view(&self) -> NoteRequestView {
        NoteRequestView {
            author: self.author@,
            subject: self.subject@,
            description: self.description@,
            is_fulfilled: self.is_fulfilled,
            timestamp: self.timestamp,
            bump: self.bump,
        }
    }
}

impl View for Record {
    type V = RecordView;

    open spec fn view(&self) -> RecordView {
        match self {
            Record::Suggestion(s) => RecordView::Suggestion(s@),
            Record::Note(n) => RecordView::Note(n@),
            Record::Request(r) => RecordView::Request(r@),
        }
    }
}

impl SuggestionView {
    /// The same suggestion with one more vote.
    pub open spec fn with_vote(self) -> SuggestionView {
        SuggestionView {
            author: self.author,
            title: self.title,
            description: self.description,
            category: self.category,
            vote_count: (self.vote_count + 1) as u64,
            timestamp: self.timestamp,
            bump: self.bump,
        }
    }
}

/// A newly filed suggestion: it has no votes.
pub open spec fn fresh_suggestion(
    author: Seq<u8>,
    title: Seq<char>,
    description: Seq<char>,
    category: u8,
    ts: i64,
    bump: u8,
) -> SuggestionView {
    SuggestionView { author, title, description, category, vote_count: 0, timestamp: ts, bump }
}

/// A newly uploaded note.
pub open spec fn fresh_note(
    author: Seq<u8>,
    subject: Seq<char>,
    title: Seq<char>,
    ipfs_hash: Seq<char>,
    now: i64,
    bump: u8,
) -> NoteView {
    NoteView { author, subject, title, ipfs_hash, timestamp: now, bump }
}

/// A newly filed note request: it is not fulfilled.
pub open spec fn fresh_request(
    author: Seq<u8>,
    subject: Seq<char>,
    description: Seq<char>,
    now: i64,
    bump: u8,
) -> NoteRequestView {
    NoteRequestView { author, subject, description, is_fulfilled: false, timestamp: now, bump }
}

impl Suggestion {
    /// A suggestion as it is first stored.
    pub fn new(
        author: Address,
        title: String,
        description: String,
        category: u8,
        ts: i64,
        bump: u8,
    ) -> (s: Suggestion)
        ensures
            s@ == fresh_suggestion(author@, title@, description@, category, ts, bump),
    {
        Suggestion { author, title, description, category, vote_count: 0, timestamp: ts, bump }
    }

    /// Adds one vote.
    pub fn upvote(&mut self)
        requires
            old(self).vote_count < u64::MAX,
        ensures
            final(self)@ == old(self)@.with_vote(),
    {
        self.vote_count = self.vote_count + 1;
    }
}

impl Note {
    /// A note as it is first stored.
    pub fn new(
        author: Address,
        subject: String,
        title: String,
        ipfs_hash: String,
        now: i64,
        bump: u8,
    ) -> (n: Note)
        ensures
            n@ == fresh_note(author@, subject@, title@, ipfs_hash@, now, bump),
    {
        Note { author, subject, title, ipfs_hash, timestamp: now, bump }
    }
}

impl NoteRequest {
    /// A note request as it is first stored.
    pub fn new(author: Address, subject: String, description: String, now: i64, bump: u8) -> (r:
        NoteRequest)
        ensures
            r@ == fresh_request(author@, subject@, description@, now, bump),
    {
        NoteRequest { author, subject, description, is_fulfilled: false, timestamp: now, bump }
    }
}

/// Bytes that a suggestion with these texts takes when stored.
pub open spec fn suggestion_size(title: Seq<char>, description: Seq<char>) -> nat {
    8 + 32 + 4 + text_len(title) + 4 + text_len(description) + 1 + 8 + 8 + 1
}

/// Bytes that a note with these texts takes when stored.
pub open spec fn note_size(subject: Seq<char>, title: Seq<char>, ipfs_hash: Seq<char>) -> nat {
    8 + 32 + 4 + text_len(subject) + 4 + text_len(title) + 4 + text_len(ipfs_hash) + 8 + 1
}

/// Bytes that a note request with these texts takes when stored.
pub open spec fn request_size(subject: Seq<char>, description: Seq<char>) -> nat {
    8 + 32 + 4 + text_len(subject) + 4 + text_len(description) + 1 + 8 + 1
}

/// Each text of a suggestion is within the slot declared for it.
pub open spec fn suggestion_in_slots(title: Seq<char>, description: Seq<char>) -> bool {
    text_len(title) <= MAX_TITLE_LEN && text_len(description) <= MAX_DESCRIPTION_LEN
}

/// Each text of a note is within the slot declared for it.
pub open spec fn note_in_slots(subject: Seq<char>, title: Seq<char>, ipfs_hash: Seq<char>) -> bool {
    text_len(subject) <= MAX_SUBJECT_LEN && text_len(title) <= MAX_TITLE_LEN && text_len(ipfs_hash)
        <= MAX_IPFS_HASH_LEN
}

/// Each text of a note request is within the slot declared for it.
pub open spec fn request_in_slots(subject: Seq<char>, description: Seq<char>) -> bool {
    text_len(subject) <= MAX_SUBJECT_LEN && text_len(description) <= MAX_DESCRIPTION_LEN
}

/// Whether each text of a suggestion fits its slot.
pub fn suggestion_fits(title: &str, description: &str) -> (r: bool)
    ensures
        r == suggestion_in_slots(title@, description@),
{
    stored_len(title) <= MAX_TITLE_LEN && stored_len(description) <= MAX_DESCRIPTION_LEN
}

/// Whether each text of a note fits its slot.
pub fn note_fits(subject: &str, title: &str, ipfs_hash: &str) -> (r: bool)
    ensures
        r == note_in_slots(subject@, title@, ipfs_hash@),
{
    stored_len(subject) <= MAX_SUBJECT_LEN && stored_len(title) <= MAX_TITLE_LEN && stored_len(
        ipfs_hash,
    ) <= MAX_IPFS_HASH_LEN
}

/// Whether each text of a note request fits its slot.
pub fn request_fits(subject: &str, description: &str) -> (r: bool)
    ensures
        r == request_in_slots(subject@, description@),
{
    stored_len(subject) <= MAX_SUBJECT_LEN && stored_len(description) <= MAX_DESCRIPTION_LEN
}

/// Each text of a record is within the slot declared for it.
pub open spec fn in_slots(record: RecordView) -> bool {
    match record {
        RecordView::Suggestion(s) => suggestion_in_slots(s.title, s.description),
        RecordView::Note(n) => note_in_slots(n.subject, n.title, n.ipfs_hash),
        RecordView::Request(r) => request_in_slots(r.subject, r.description),
    }
}

/// Bytes that a record takes when stored.
pub open spec fn stored_size(record: RecordView) -> nat {
    match record {
        RecordView::Suggestion(s) => suggestion_size(s.title, s.description),
        RecordView::Note(n) => note_size(n.subject, n.title, n.ipfs_hash),
        RecordView::Request(r) => request_size(r.subject, r.description),
    }
}

/// The space allotted to a record of this kind.
pub open spec fn space_of(record: RecordView) -> nat {
    match record {
        RecordView::Suggestion(_) => SUGGESTION_SPACE as nat,
        RecordView::Note(_) => NOTE_SPACE as nat,
        RecordView::Request(_) => REQUEST_SPACE as nat,
    }
}

impl Record {
    /// Whether each text of the record fits the slot declared for it.
    pub fn fits(&self) -> (r: bool)
        ensures
            r == in_slots(self@),
    {
        match self {
            Record::Suggestion(s) => suggestion_fits(
                s.title.as_str(),
                s.description.as_str(),
            ),
            Record::Note(n) => note_fits(
                n.subject.as_str(),
                n.title.as_str(),
                n.ipfs_hash.as_str(),
            ),
            Record::Request(r) => request_fits(
                r.subject.as_str(),
                r.description.as_str(),
            ),
        }
    }
}

} // verus!
