//! The record store: every record of a program by its address, and the
//! program's treasury.

use crate::address::{derive_treasury_address, treasury_address, Address};
use crate::error::AppError;
use crate::fee::{fees_of, Treasury};
use crate::records::{in_slots, Record, RecordView};
use vstd::prelude::*;

verus! {

/// A record and the address it is stored at.
#[derive(Debug)]
pub struct Entry {
    pub address: Address,
    pub record: Record,
}

/// The stored records of one program and its treasury.
#[derive(Debug)]
pub struct Ledger {
    pub program_id: Address,
    pub treasury: Treasury,
    pub entries: Vec<Entry>,
}

/// Entry `i` exists and is stored at address `a`.
pub open spec fn at(entries: Seq<Entry>, i: int, a: Seq<u8>) -> bool {
    0 <= i < entries.len() && entries[i].address@ == a
}

/// No two entries share an address.
pub open spec fn distinct(entries: Seq<Entry>) -> bool {
    forall|i: int, j: int|
        #![trigger entries[i], entries[j]]
        0 <= i < j < entries.len() ==> entries[i].address@ != entries[j].address@
}

/// Every entry's texts are within their slots.
pub open spec fn all_in_slots(entries: Seq<Entry>) -> bool {
    forall|i: int| 0 <= i < entries.len() ==> in_slots(#[trigger] entries[i].record@)
}

/// Some entry is stored at address `a`.
pub open spec fn holds_in(entries: Seq<Entry>, a: Seq<u8>) -> bool {
    exists|i: int| at(entries, i, a)
}

/// The position of an entry stored at address `a`.
pub open spec fn index_in(entries: Seq<Entry>, a: Seq<u8>) -> int {
    choose|i: int| at(entries, i, a)
}

/// The records of a list of entries, by address.
pub open spec fn records_of(entries: Seq<Entry>) -> Map<Seq<u8>, RecordView> {
    Map::new(|a: Seq<u8>| holds_in(entries, a), |a: Seq<u8>| entries[index_in(entries, a)].record@)
}

/// The records after one more vote for the suggestion at `a`; unchanged where
/// `a` holds no suggestion.
pub open spec fn upvoted(records: Map<Seq<u8>, RecordView>, a: Seq<u8>) -> Map<
    Seq<u8>,
    RecordView,
> {
    if is_suggestion(records, a) {
        records.insert(a, voted(records[a]))
    } else {
        records
    }
}

/// A suggestion with one more vote; any other record unchanged.
pub open spec fn voted(record: RecordView) -> RecordView {
    match record {
        RecordView::Suggestion(s) => RecordView::Suggestion(s.with_vote()),
        other => other,
    }
}

/// Address `a` holds a suggestion.
pub open spec fn is_suggestion(records: Map<Seq<u8>, RecordView>, a: Seq<u8>) -> bool {
    records.dom().contains(a) && records[a] is Suggestion
}

/// The votes of the suggestion at `a`.
pub open spec fn votes(records: Map<Seq<u8>, RecordView>, a: Seq<u8>) -> u64
    recommends
        is_suggestion(records, a),
{
    match records[a] {
        RecordView::Suggestion(s) => s.vote_count,
        _ => 0,
    }
}

/// In a list without shared addresses, each entry is the record of its address.
pub proof fn lemma_entry(entries: Seq<Entry>, i: int)
    requires
        distinct(entries),
        0 <= i < entries.len(),
    ensures
        holds_in(entries, entries[i].address@),
        index_in(entries, entries[i].address@) == i,
        records_of(entries).dom().contains(entries[i].address@),
        records_of(entries)[entries[i].address@] == entries[i].record@,
{
    let a = entries[i].address@;
    assert(at(entries, i, a));
    let k = index_in(entries, a);
    assert(at(entries, k, a));
}

/// Appending an entry at a free address adds exactly that record.
pub proof fn lemma_push(entries: Seq<Entry>, e: Entry)
    requires
        distinct(entries),
        !holds_in(entries, e.address@),
    ensures
        distinct(entries.push(e)),
        records_of(entries.push(e)) == records_of(entries).insert(e.address@, e.record@),
        all_in_slots(entries) && in_slots(e.record@) ==> all_in_slots(entries.push(e)),
{
    let grown = entries.push(e);
    let last = entries.len() as int;
    if all_in_slots(entries) && in_slots(e.record@) {
        assert forall|i: int| 0 <= i < grown.len() implies in_slots(
            #[trigger] grown[i].record@,
        ) by {
            if i < last {
                assert(in_slots(entries[i].record@));
            }
        }
    }
    assert forall|i: int, j: int|
        #![trigger grown[i], grown[j]]
        0 <= i < j < grown.len() implies grown[i].address@ != grown[j].address@ by {
        if j == last {
            assert(!at(entries, i, e.address@));
        } else {
            assert(entries[i].address@ != entries[j].address@);
        }
    }
    assert forall|a: Seq<u8>| holds_in(grown, a) <==> (a == e.address@ || holds_in(entries, a)) by {
        if holds_in(grown, a) {
            let k = index_in(grown, a);
            assert(at(grown, k, a));
            if k < last {
                assert(at(entries, k, a));
            }
        }
        if a == e.address@ {
            assert(at(grown, last, a));
        }
        if holds_in(entries, a) {
            let k = index_in(entries, a);
            assert(at(entries, k, a));
            assert(at(grown, k, a));
        }
    }
    assert forall|a: Seq<u8>| holds_in(grown, a) implies records_of(grown)[a] == records_of(
        entries,
    ).insert(e.address@, e.record@)[a] by {
        if a == e.address@ {
            lemma_entry(grown, last);
        } else {
            let k = index_in(entries, a);
            assert(at(entries, k, a));
            lemma_entry(entries, k);
            lemma_entry(grown, k);
        }
    }
    assert(records_of(grown) =~= records_of(entries).insert(e.address@, e.record@));
}

/// Raising the vote count of entry `i` in place is one vote for its address.
pub proof fn lemma_vote(before: Seq<Entry>, after: Seq<Entry>, i: int)
    requires
        distinct(before),
        0 <= i < before.len(),
        after.len() == before.len(),
        forall|j: int|
            0 <= j < before.len() ==> #[trigger] after[j].address@ == before[j].address@,
        forall|j: int|
            0 <= j < before.len() && j != i ==> #[trigger] after[j].record@ == before[j].record@,
        before[i].record@ is Suggestion,
        after[i].record@ == voted(before[i].record@),
    ensures
        distinct(after),
        records_of(after) == upvoted(records_of(before), before[i].address@),
        all_in_slots(before) ==> all_in_slots(after),
{
    let target = before[i].address@;
    if all_in_slots(before) {
        assert forall|j: int| 0 <= j < after.len() implies in_slots(
            #[trigger] after[j].record@,
        ) by {
            assert(in_slots(before[j].record@));
        }
    }
    assert forall|j: int, k: int|
        #![trigger after[j], after[k]]
        0 <= j < k < after.len() implies after[j].address@ != after[k].address@ by {
        assert(before[j].address@ != before[k].address@);
    }
    lemma_entry(before, i);
    assert forall|a: Seq<u8>| holds_in(after, a) <==> holds_in(before, a) by {
        if holds_in(after, a) {
            let k = index_in(after, a);
            assert(at(after, k, a));
            assert(at(before, k, a));
        }
        if holds_in(before, a) {
            let k = index_in(before, a);
            assert(at(before, k, a));
            assert(at(after, k, a));
        }
    }
    assert forall|a: Seq<u8>| holds_in(after, a) implies records_of(after)[a] == upvoted(
        records_of(before),
        target,
    )[a] by {
        let k = index_in(before, a);
        assert(at(before, k, a));
        lemma_entry(before, k);
        lemma_entry(after, k);
    }
    assert(records_of(after) =~= upvoted(records_of(before), target));
}

impl Ledger {
    /// No two records share an address, every record's texts are within their
    /// slots, and the treasury holds at most one fee for each record.
    pub open spec fn wf(&self) -> bool {
        &&& distinct(self.entries@)
        &&& all_in_slots(self.entries@)
        &&& self.treasury.lamports <= fees_of(self.entries@.len())
    }

    /// The stored records, by address.
    pub open spec fn records(&self) -> Map<Seq<u8>, RecordView> {
        records_of(self.entries@)
    }

    /// An empty ledger for a program whose treasury lives at `treasury`.
    pub fn with_treasury(program_id: Address, treasury: Address) -> (ledger: Ledger)
        ensures
            ledger.wf(),
            ledger.records() == Map::<Seq<u8>, RecordView>::empty(),
            ledger.program_id == program_id,
            ledger.treasury == (Treasury { key: treasury, lamports: 0 }),
    {
        let ledger = Ledger {
            program_id,
            treasury: Treasury { key: treasury, lamports: 0 },
            entries: Vec::new(),
        };
        assert(ledger.records() =~= Map::<Seq<u8>, RecordView>::empty());
        ledger
    }

    /// An empty ledger for a program, with the treasury at the address derived
    /// for it; `None` where no treasury address can be derived.
    pub fn new(program_id: Address) -> (r: Option<Ledger>)
        ensures
            match treasury_address(program_id@) {
                Some((a, _)) => r matches Some(ledger) && ledger.wf() && ledger.records() == Map::<
                    Seq<u8>,
                    RecordView,
                >::empty() && ledger.program_id == program_id && ledger.treasury.lamports == 0
                    && ledger.treasury.key@ == a,
                None => r is None,
            },
    {
        match derive_treasury_address(&program_id) {
            Some((treasury, _)) => Some(Ledger::with_treasury(program_id, treasury)),
            None => None,
        }
    }

    /// The position of the record stored at `address`.
    pub fn find(&self, address: &Address) -> (r: Option<usize>)
        ensures
            match r {
                Some(i) => at(self.entries@, i as int, address@) && forall|j: int|
                    0 <= j < i ==> !at(self.entries@, j, address@),
                None => !holds_in(self.entries@, address@),
            },
    {
        let mut i: usize = 0;
        while i < self.entries.len()
            invariant
                i <= self.entries@.len(),
                forall|j: int| 0 <= j < i ==> !at(self.entries@, j, address@),
            decreases self.entries@.len() - i,
        {
            if self.entries[i].address.same(address) {
                return Some(i);
            }
            i += 1;
        }
        None
    }

    /// Whether a record is stored at `address`.
    pub fn contains(&self, address: &Address) -> (r: bool)
        ensures
            r == self.records().dom().contains(address@),
    {
        self.find(address).is_some()
    }

    /// The record stored at `address`.
    pub fn get(&self, address: &Address) -> (r: Option<&Record>)
        requires
            self.wf(),
        ensures
            r is Some <==> self.records().dom().contains(address@),
            r matches Some(record) ==> record@ == self.records()[address@],
    {
        match self.find(address) {
            Some(i) => {
                proof {
                    lemma_entry(self.entries@, i as int);
                }
                Some(&self.entries[i].record)
            },
            None => None,
        }
    }

    /// The votes of the suggestion stored at `address`.
    pub fn vote_count(&self, address: &Address) -> (r: Option<u64>)
        requires
            self.wf(),
        ensures
            r is Some <==> is_suggestion(self.records(), address@),
            r matches Some(n) ==> n == votes(self.records(), address@),
    {
        match self.get(address) {
            Some(Record::Suggestion(s)) => Some(s.vote_count),
            _ => None,
        }
    }

    /// The number of stored records.
    pub fn len(&self) -> (n: usize)
        ensures
            n == self.entries@.len(),
    {
        self.entries.len()
    }

    /// Stores a record at a free address. Refuses an occupied address, and a
    /// record with a text that exceeds its slot.
    pub fn create(&mut self, address: Address, record: Record) -> (r: Result<(), AppError>)
        requires
            old(self).wf(),
        ensures
            final(self).wf(),
            final(self).program_id == old(self).program_id,
            final(self).treasury == old(self).treasury,
            r == (if old(self).records().dom().contains(address@) {
                Err::<(), AppError>(AppError::AddressCollision)
            } else if !in_slots(record@) {
                Err::<(), AppError>(AppError::SizeMismatch)
            } else {
                Ok::<(), AppError>(())
            }),
            r is Err ==> final(self).entries == old(self).entries,
            r is Ok ==> final(self).records() == old(self).records().insert(address@, record@),
            r is Ok ==> final(self).entries@.len() == old(self).entries@.len() + 1,
    {
        if self.contains(&address) {
            return Err(AppError::AddressCollision);
        }
        if !record.fits() {
            return Err(AppError::SizeMismatch);
        }
        let entry = Entry { address, record };
        proof {
            lemma_push(self.entries@, entry);
        }
        self.entries.push(entry);
        Ok(())
    }

    /// Adds one vote to the suggestion stored at `address`; refuses an address
    /// that holds no suggestion.
    pub fn upvote(&mut self, address: &Address) -> (r: Result<(), AppError>)
        requires
            old(self).wf(),
            is_suggestion(old(self).records(), address@) ==> votes(old(self).records(), address@)
                < u64::MAX,
        ensures
            final(self).wf(),
            final(self).program_id == old(self).program_id,
            final(self).treasury == old(self).treasury,
            final(self).records() == upvoted(old(self).records(), address@),
            r == (if is_suggestion(old(self).records(), address@) {
                Ok::<(), AppError>(())
            } else {
                Err::<(), AppError>(AppError::NotFound)
            }),
            r is Err ==> *final(self) == *old(self),
    {
        let i = match self.find(address) {
            Some(i) => i,
            None => {
                return Err(AppError::NotFound);
            },
        };
        proof {
            lemma_entry(self.entries@, i as int);
        }
        let found = match &self.entries[i].record {
            Record::Suggestion(_) => true,
            _ => false,
        };
        if !found {
            return Err(AppError::NotFound);
        }
        match &mut self.entries[i].record {
            Record::Suggestion(s) => {
                s.upvote();
            },
            _ => {},
        }
        proof {
            lemma_vote(old(self).entries@, self.entries@, i as int);
        }
        Ok(())
    }
}

} // verus!
