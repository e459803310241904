//! The store of claims: which fingerprint is claimed, by whom and at what
//! height. It keeps what it is given and checks nothing.

use vstd::prelude::*;
use crate::config::Config;
use crate::types::{AccountId, Fingerprint, Height};

verus! {

/// What the registry keeps for a claimed fingerprint.
#[derive(Debug)]
pub struct ClaimRecord {
    /// The account that made the claim.
    pub owner: AccountId,
    /// The height at which it was made.
    pub height: Height,
}

/// A claim record as contracts speak of it.
pub ghost struct ClaimRecordView {
    pub owner: Seq<u8>,
    pub height: Height,
}

impl View for ClaimRecord {
    type V = ClaimRecordView;

    open spec fn view(&self) -> ClaimRecordView {
        ClaimRecordView { owner: self.owner@, height: self.height }
    }
}

impl Clone for ClaimRecord {
    fn clone(&self) -> (copy: Self)
        ensures
            copy@ == self@,
    {
        ClaimRecord { owner: self.owner.clone(), height: self.height }
    }
}

/// One claimed fingerprint with its record.
struct Entry<T: Config> {
    fingerprint: Fingerprint<T>,
    record: ClaimRecord,
}

/// Entry `i` exists and is the claim on `fingerprint`.
spec fn claims_at<T: Config>(entries: Seq<Entry<T>>, fingerprint: Seq<u8>, i: int) -> bool {
    0 <= i < entries.len() && entries[i].fingerprint@ == fingerprint
}

/// No fingerprint has two entries.
spec fn distinct<T: Config>(entries: Seq<Entry<T>>) -> bool {
    forall|i: int, j: int|
        0 <= i < j < entries.len() ==> entries[i].fingerprint@ != entries[j].fingerprint@
}

/// The mapping that a list of entries stands for.
spec fn mapping<T: Config>(entries: Seq<Entry<T>>) -> Map<Seq<u8>, ClaimRecordView> {
    Map::new(
        |fingerprint: Seq<u8>| exists|i: int| claims_at(entries, fingerprint, i),
        |fingerprint: Seq<u8>| entries[choose|i: int| claims_at(entries, fingerprint, i)].record@,
    )
}

/// In a list without repetition, each entry is what the mapping holds for
/// its fingerprint.
proof fn lemma_entry_is_mapped<T: Config>(entries: Seq<Entry<T>>, i: int)
    requires
        distinct(entries),
        0 <= i < entries.len(),
    ensures
        mapping(entries).contains_key(entries[i].fingerprint@),
        mapping(entries)[entries[i].fingerprint@] == entries[i].record@,
{
    assert(claims_at(entries, entries[i].fingerprint@, i));
}

/// Appending a claim on a fingerprint that has none adds it to the mapping.
proof fn lemma_push<T: Config>(entries: Seq<Entry<T>>, entry: Entry<T>)
    requires
        distinct(entries),
        forall|i: int| !claims_at(entries, entry.fingerprint@, i),
    ensures
        distinct(entries.push(entry)),
        mapping(entries.push(entry)) == mapping(entries).insert(
            entry.fingerprint@,
            entry.record@,
        ),
{
    let grown = entries.push(entry);
    assert forall|i: int, j: int| 0 <= i < j < grown.len() implies grown[i].fingerprint@
        != grown[j].fingerprint@ by {
        if j == entries.len() {
            assert(!claims_at(entries, entry.fingerprint@, i));
        }
    }
    let expected = mapping(entries).insert(entry.fingerprint@, entry.record@);
    assert forall|fingerprint: Seq<u8>| #[trigger]
        mapping(grown).contains_key(fingerprint) implies expected.contains_key(fingerprint) by {
        let i = choose|i: int| claims_at(grown, fingerprint, i);
        if i < entries.len() {
            assert(claims_at(entries, fingerprint, i));
        }
    }
    assert forall|fingerprint: Seq<u8>| #[trigger]
        expected.contains_key(fingerprint) implies mapping(grown).contains_key(fingerprint)
        && mapping(grown)[fingerprint] == expected[fingerprint] by {
        if fingerprint == entry.fingerprint@ {
            lemma_entry_is_mapped(grown, entries.len() as int);
        } else {
            let i = choose|i: int| claims_at(entries, fingerprint, i);
            lemma_entry_is_mapped(entries, i);
            lemma_entry_is_mapped(grown, i);
        }
    }
}

/// Replacing the entry of a fingerprint by another entry of the same
/// fingerprint replaces its record in the mapping.
proof fn lemma_update<T: Config>(entries: Seq<Entry<T>>, at: int, entry: Entry<T>)
    requires
        distinct(entries),
        claims_at(entries, entry.fingerprint@, at),
    ensures
        distinct(entries.update(at, entry)),
        mapping(entries.update(at, entry)) == mapping(entries).insert(
            entry.fingerprint@,
            entry.record@,
        ),
{
    let changed = entries.update(at, entry);
    let expected = mapping(entries).insert(entry.fingerprint@, entry.record@);
    assert forall|fingerprint: Seq<u8>| #[trigger]
        mapping(changed).contains_key(fingerprint) implies expected.contains_key(fingerprint) by {
        let i = choose|i: int| claims_at(changed, fingerprint, i);
        assert(claims_at(entries, fingerprint, i));
    }
    assert forall|fingerprint: Seq<u8>| #[trigger]
        expected.contains_key(fingerprint) implies mapping(changed).contains_key(fingerprint)
        && mapping(changed)[fingerprint] == expected[fingerprint] by {
        if fingerprint == entry.fingerprint@ {
            lemma_entry_is_mapped(changed, at);
        } else {
            let i = choose|i: int| claims_at(entries, fingerprint, i);
            lemma_entry_is_mapped(entries, i);
            lemma_entry_is_mapped(changed, i);
        }
    }
}

/// Taking an entry out takes its fingerprint out of the mapping.
proof fn lemma_remove<T: Config>(entries: Seq<Entry<T>>, at: int)
    requires
        distinct(entries),
        0 <= at < entries.len(),
    ensures
        distinct(entries.remove(at)),
        mapping(entries.remove(at)) == mapping(entries).remove(entries[at].fingerprint@),
{
    let shrunk = entries.remove(at);
    let gone = entries[at].fingerprint@;
    let expected = mapping(entries).remove(gone);
    assert forall|fingerprint: Seq<u8>| #[trigger]
        mapping(shrunk).contains_key(fingerprint) implies expected.contains_key(fingerprint)
        && mapping(shrunk)[fingerprint] == expected[fingerprint] by {
        let i = choose|i: int| claims_at(shrunk, fingerprint, i);
        let from = if i < at { i } else { i + 1 };
        lemma_entry_is_mapped(entries, from);
        lemma_entry_is_mapped(shrunk, i);
    }
    assert forall|fingerprint: Seq<u8>| #[trigger]
        expected.contains_key(fingerprint) implies mapping(shrunk).contains_key(fingerprint) by {
        let from = choose|i: int| claims_at(entries, fingerprint, i);
        let i = if from < at { from } else { from - 1 };
        assert(claims_at(shrunk, fingerprint, i));
    }
}

/// A list without repetition stands for a finite mapping with one key for
/// each entry.
proof fn lemma_size<T: Config>(entries: Seq<Entry<T>>)
    requires
        distinct(entries),
    ensures
        mapping(entries).dom().finite(),
        mapping(entries).dom().len() == entries.len(),
    decreases entries.len(),
{
    if entries.len() == 0 {
        assert(mapping(entries).dom() =~= Set::<Seq<u8>>::empty());
    } else {
        let front = entries.drop_last();
        let last = entries.last();
        lemma_size(front);
        lemma_push(front, last);
        assert(front.push(last) =~= entries);
    }
}

/// The claim registry: a finite mapping from fingerprints to claim records.
///
/// Its view is that mapping. The registry is a total store: every operation
/// is defined on every input, and none of them judges what it is given.
pub struct ClaimRegistry<T: Config> {
    entries: Vec<Entry<T>>,
}

impl<T: Config> View for ClaimRegistry<T> {
    type V = Map<Seq<u8>, ClaimRecordView>;

    closed spec fn view(&self) -> Map<Seq<u8>, ClaimRecordView> {
        mapping(self.entries@)
    }
}

impl<T: Config> ClaimRegistry<T> {
    #[verifier::type_invariant]
    spec fn well_formed(self) -> bool {
        distinct(self.entries@)
    }

    /// The registry without claims.
    pub fn new() -> (registry: Self)
        ensures
            registry@ == Map::<Seq<u8>, ClaimRecordView>::empty(),
    {
        let registry = ClaimRegistry { entries: Vec::new() };
        registry
    }

    /// Where the claim on `fingerprint` is kept, if there is one.
    fn position(&self, fingerprint: &Fingerprint<T>) -> (found: Option<usize>)
        ensures
            match found {
                Some(i) => claims_at(self.entries@, fingerprint@, i as int),
                None => forall|i: int| !claims_at(self.entries@, fingerprint@, i),
            },
    {
        let mut i: usize = 0;
        while i < self.entries.len()
            invariant
                0 <= i <= self.entries@.len(),
                forall|j: int| 0 <= j < i ==> !claims_at(self.entries@, fingerprint@, j),
            decreases self.entries@.len() - i,
        {
            if self.entries[i].fingerprint == *fingerprint {
                return Some(i);
            }
            i += 1;
        }
        None
    }

    /// Whether `fingerprint` is claimed.
    pub fn contains(&self, fingerprint: &Fingerprint<T>) -> (claimed: bool)
        ensures
            claimed == self@.contains_key(fingerprint@),
    {
        self.position(fingerprint).is_some()
    }

    /// The record of the claim on `fingerprint`, if it is claimed.
    pub fn get(&self, fingerprint: &Fingerprint<T>) -> (found: Option<&ClaimRecord>)
        ensures
            match found {
                Some(record) => self@.contains_key(fingerprint@) && self@[fingerprint@]
                    == record@,
                None => !self@.contains_key(fingerprint@),
            },
    {
        match self.position(fingerprint) {
            Some(i) => {
                proof {
                    use_type_invariant(self);
                    lemma_entry_is_mapped(self.entries@, i as int);
                }
                Some(&self.entries[i].record)
            },
            None => None,
        }
    }

    /// Records `record` for `fingerprint`, in place of any record that it had.
    pub fn insert(&mut self, fingerprint: Fingerprint<T>, record: ClaimRecord)
        ensures
            final(self)@ == old(self)@.insert(fingerprint@, record@),
    {
        proof {
            use_type_invariant(&*self);
        }
        let found = self.position(&fingerprint);
        let entry = Entry { fingerprint, record };
        let mut entries: Vec<Entry<T>> = Vec::new();
        std::mem::swap(&mut entries, &mut self.entries);
        match found {
            Some(i) => {
                proof {
                    lemma_update(entries@, i as int, entry);
                }
                entries.set(i, entry);
            },
            None => {
                proof {
                    lemma_push(entries@, entry);
                }
                entries.push(entry);
            },
        }
        self.entries = entries;
    }

    /// Forgets the claim on `fingerprint`, if there is one.
    pub fn remove(&mut self, fingerprint: &Fingerprint<T>)
        ensures
            final(self)@ == old(self)@.remove(fingerprint@),
    {
        proof {
            use_type_invariant(&*self);
        }
        match self.position(fingerprint) {
            Some(i) => {
                let mut entries: Vec<Entry<T>> = Vec::new();
                std::mem::swap(&mut entries, &mut self.entries);
                proof {
                    lemma_remove(entries@, i as int);
                }
                let _ = entries.remove(i);
                self.entries = entries;
            },
            None => {
            },
        }
    }

    /// The number of claimed fingerprints.
    pub fn len(&self) -> (n: usize)
        ensures
            self@.dom().finite(),
            n == self@.dom().len(),
    {
        proof {
            use_type_invariant(self);
            lemma_size(self.entries@);
        }
        self.entries.len()
    }

    /// Whether no fingerprint is claimed.
    pub fn is_empty(&self) -> (empty: bool)
        ensures
            empty == (self@ == Map::<Seq<u8>, ClaimRecordView>::empty()),
    {
        proof {
            use_type_invariant(self);
            if self.entries@.len() == 0 {
                assert(self@ =~= Map::<Seq<u8>, ClaimRecordView>::empty());
            } else {
                lemma_entry_is_mapped(self.entries@, 0);
            }
        }
        self.entries.len() == 0
    }
}

} // verus!
