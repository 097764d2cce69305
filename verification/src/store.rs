//! A keyed table of records: at most one record per identity.

use vstd::prelude::*;
use crate::identity::Identity;

verus! {

/// What `records` holds under `key`: the slot that an instruction sees.
pub open spec fn slot_at<R>(records: Map<Seq<u8>, R>, key: Seq<u8>) -> Option<R> {
    if records.contains_key(key) {
        Some(records[key])
    } else {
        None
    }
}

/// `records` with the slot under `key` replaced by `slot`.
pub open spec fn with_slot<R>(records: Map<Seq<u8>, R>, key: Seq<u8>, slot: Option<R>) -> Map<
    Seq<u8>,
    R,
> {
    match slot {
        Some(record) => records.insert(key, record),
        None => records.remove(key),
    }
}

/// One stored record with the identity it is stored under.
struct Entry<R> {
    key: Identity,
    record: R,
}

/// Records stored under identities, at most one per identity. Its view is
/// the map from the bytes of an identity to the record stored under it.
pub struct KeyedTable<R> {
    entries: Vec<Entry<R>>,
}

spec fn key_at<R>(entries: Seq<Entry<R>>, i: int) -> Seq<u8> {
    entries[i].key@
}

spec fn has_key<R>(entries: Seq<Entry<R>>, key: Seq<u8>) -> bool {
    exists|i: int| 0 <= i < entries.len() && #[trigger] key_at(entries, i) == key
}

spec fn index_of<R>(entries: Seq<Entry<R>>, key: Seq<u8>) -> int {
    choose|i: int| 0 <= i < entries.len() && #[trigger] key_at(entries, i) == key
}

spec fn keys_are_unique<R>(entries: Seq<Entry<R>>) -> bool {
    forall|i: int, j: int|
        0 <= i < j < entries.len() ==> #[trigger] key_at(entries, i) != #[trigger] key_at(
            entries,
            j,
        )
}

spec fn as_map<R>(entries: Seq<Entry<R>>) -> Map<Seq<u8>, R> {
    Map::new(
        |key: Seq<u8>| has_key(entries, key),
        |key: Seq<u8>| entries[index_of(entries, key)].record,
    )
}

proof fn lemma_entry_is_mapped<R>(entries: Seq<Entry<R>>, i: int)
    requires
        keys_are_unique(entries),
        0 <= i < entries.len(),
    ensures
        has_key(entries, key_at(entries, i)),
        index_of(entries, key_at(entries, i)) == i,
        as_map(entries).contains_key(key_at(entries, i)),
        as_map(entries)[key_at(entries, i)] == entries[i].record,
{
    let j = index_of(entries, key_at(entries, i));
    assert(key_at(entries, j) == key_at(entries, i));
    if j < i {
        assert(key_at(entries, j) != key_at(entries, i));
    }
    if i < j {
        assert(key_at(entries, i) != key_at(entries, j));
    }
}

proof fn lemma_push<R>(entries: Seq<Entry<R>>, entry: Entry<R>)
    requires
        keys_are_unique(entries),
        !has_key(entries, entry.key@),
    ensures
        keys_are_unique(entries.push(entry)),
        as_map(entries.push(entry)) == as_map(entries).insert(entry.key@, entry.record),
{
    let after = entries.push(entry);
    assert forall|i: int, j: int| 0 <= i < j < after.len() implies #[trigger] key_at(after, i)
        != #[trigger] key_at(after, j) by {
        if j < entries.len() {
            assert(key_at(entries, i) != key_at(entries, j));
        } else {
            assert(key_at(entries, i) == key_at(after, i));
        }
    }
    assert forall|key: Seq<u8>| has_key(after, key) <==> (has_key(entries, key) || key
        == entry.key@) by {
        if has_key(after, key) {
            let i = index_of(after, key);
            if i < entries.len() {
                assert(key_at(entries, i) == key);
            }
        }
        if has_key(entries, key) {
            let i = index_of(entries, key);
            assert(key_at(after, i) == key);
        }
        if key == entry.key@ {
            assert(key_at(after, entries.len() as int) == key);
        }
    }
    assert forall|key: Seq<u8>| has_key(after, key) implies as_map(after)[key] == as_map(
        entries,
    ).insert(entry.key@, entry.record)[key] by {
        if key == entry.key@ {
            assert(key_at(after, entries.len() as int) == key);
            lemma_entry_is_mapped(after, entries.len() as int);
        } else {
            let i = index_of(entries, key);
            assert(key_at(after, i) == key);
            lemma_entry_is_mapped(after, i);
            lemma_entry_is_mapped(entries, i);
        }
    }
    assert(as_map(after) =~= as_map(entries).insert(entry.key@, entry.record));
}

proof fn lemma_update<R>(entries: Seq<Entry<R>>, at: int, entry: Entry<R>)
    requires
        keys_are_unique(entries),
        0 <= at < entries.len(),
        key_at(entries, at) == entry.key@,
    ensures
        keys_are_unique(entries.update(at, entry)),
        as_map(entries.update(at, entry)) == as_map(entries).insert(entry.key@, entry.record),
{
    let after = entries.update(at, entry);
    assert forall|i: int| 0 <= i < entries.len() implies #[trigger] key_at(after, i) == key_at(
        entries,
        i,
    ) by {}
    assert forall|i: int, j: int| 0 <= i < j < after.len() implies #[trigger] key_at(after, i)
        != #[trigger] key_at(after, j) by {
        assert(key_at(entries, i) != key_at(entries, j));
    }
    assert forall|key: Seq<u8>| has_key(after, key) <==> (has_key(entries, key) || key
        == entry.key@) by {
        if has_key(after, key) {
            let i = index_of(after, key);
            assert(key_at(entries, i) == key);
        }
        if has_key(entries, key) {
            let i = index_of(entries, key);
            assert(key_at(after, i) == key);
        }
        if key == entry.key@ {
            assert(key_at(after, at) == key);
        }
    }
    assert forall|key: Seq<u8>| has_key(after, key) implies as_map(after)[key] == as_map(
        entries,
    ).insert(entry.key@, entry.record)[key] by {
        let i = index_of(after, key);
        lemma_entry_is_mapped(after, i);
        if i != at {
            assert(key_at(entries, i) == key);
            lemma_entry_is_mapped(entries, i);
            lemma_entry_is_mapped(entries, at);
        }
    }
    assert(as_map(after) =~= as_map(entries).insert(entry.key@, entry.record));
}

proof fn lemma_remove<R>(entries: Seq<Entry<R>>, at: int)
    requires
        keys_are_unique(entries),
        0 <= at < entries.len(),
    ensures
        keys_are_unique(entries.remove(at)),
        as_map(entries.remove(at)) == as_map(entries).remove(key_at(entries, at)),
{
    let after = entries.remove(at);
    assert forall|i: int| 0 <= i < after.len() implies #[trigger] key_at(after, i) == key_at(
        entries,
        if i < at {
            i
        } else {
            i + 1
        },
    ) by {}
    assert forall|i: int, j: int| 0 <= i < j < after.len() implies #[trigger] key_at(after, i)
        != #[trigger] key_at(after, j) by {
        let a = if i < at {
            i
        } else {
            i + 1
        };
        let b = if j < at {
            j
        } else {
            j + 1
        };
        assert(key_at(entries, a) != key_at(entries, b));
    }
    let gone = key_at(entries, at);
    assert forall|key: Seq<u8>| has_key(after, key) <==> (has_key(entries, key) && key
        != gone) by {
        if has_key(after, key) {
            let i = index_of(after, key);
            let a = if i < at {
                i
            } else {
                i + 1
            };
            assert(key_at(entries, a) == key);
            if a < at {
                assert(key_at(entries, a) != key_at(entries, at));
            } else {
                assert(key_at(entries, at) != key_at(entries, a));
            }
        }
        if has_key(entries, key) && key != gone {
            let a = index_of(entries, key);
            let i = if a < at {
                a
            } else {
                a - 1
            };
            assert(key_at(after, i) == key);
        }
    }
    assert forall|key: Seq<u8>| has_key(after, key) implies as_map(after)[key] == as_map(
        entries,
    ).remove(gone)[key] by {
        let i = index_of(after, key);
        let a = if i < at {
            i
        } else {
            i + 1
        };
        lemma_entry_is_mapped(after, i);
        assert(key_at(entries, a) == key);
        lemma_entry_is_mapped(entries, a);
    }
    assert(as_map(after) =~= as_map(entries).remove(gone));
}

fn find<R>(entries: &Vec<Entry<R>>, key: &Identity) -> (found: Option<usize>)
    ensures
        match found {
            Some(i) => i < entries@.len() && key_at(entries@, i as int) == key@,
            None => !has_key(entries@, key@),
        },
{
    let mut i: usize = 0;
    while i < entries.len()
        invariant
            i <= entries@.len(),
            forall|j: int| 0 <= j < i ==> #[trigger] key_at(entries@, j) != key@,
        decreases entries@.len() - i,
    {
        if entries[i].key.same(key) {
            return Some(i);
        }
        i += 1;
    }
    None
}

impl<R> View for KeyedTable<R> {
    type V = Map<Seq<u8>, R>;

    closed spec fn view(&self) -> Map<Seq<u8>, R> {
        as_map(self.entries@)
    }
}

impl<R> KeyedTable<R> {
    #[verifier::type_invariant]
    spec fn well_formed(self) -> bool {
        keys_are_unique(self.entries@)
    }
}

impl<R: Copy> KeyedTable<R> {
    /// A table that holds nothing.
    pub fn new() -> (table: Self)
        ensures
            table@ == Map::<Seq<u8>, R>::empty(),
    {
        let table = KeyedTable { entries: Vec::new() };
        assert(table@ =~= Map::<Seq<u8>, R>::empty());
        table
    }

    /// The record stored under `key`, if there is one.
    pub fn get(&self, key: &Identity) -> (record: Option<R>)
        ensures
            record == slot_at(self@, key@),
    {
        proof {
            use_type_invariant(&*self);
        }
        match find(&self.entries, key) {
            Some(i) => {
                proof {
                    lemma_entry_is_mapped(self.entries@, i as int);
                }
                Some(self.entries[i].record)
            },
            None => None,
        }
    }

    /// Stores `record` under `key`, in place of what was stored there.
    pub fn put(&mut self, key: Identity, record: R)
        ensures
            final(self)@ == old(self)@.insert(key@, record),
    {
        proof {
            use_type_invariant(&*self);
        }
        let mut entries: Vec<Entry<R>> = Vec::new();
        std::mem::swap(&mut entries, &mut self.entries);
        let entry = Entry { key, record };
        match find(&entries, &key) {
            Some(i) => {
                proof {
                    lemma_update(entries@, i as int, entry);
                }
                entries[i] = entry;
            },
            None => {
                proof {
                    lemma_push(entries@, entry);
                }
                entries.push(entry);
            },
        }
        self.entries = entries;
    }

    /// Removes the record stored under `key`, if there is one, and returns it.
    pub fn remove(&mut self, key: &Identity) -> (record: Option<R>)
        ensures
            record == slot_at(old(self)@, key@),
            final(self)@ == old(self)@.remove(key@),
    {
        proof {
            use_type_invariant(&*self);
        }
        let mut entries: Vec<Entry<R>> = Vec::new();
        std::mem::swap(&mut entries, &mut self.entries);
        let record = match find(&entries, key) {
            Some(i) => {
                proof {
                    lemma_entry_is_mapped(entries@, i as int);
                    lemma_remove(entries@, i as int);
                }
                let entry = entries.remove(i);
                Some(entry.record)
            },
            None => {
                assert(as_map(entries@).remove(key@) =~= as_map(entries@));
                None
            },
        };
        self.entries = entries;
        record
    }

    /// Makes the slot under `key` hold `slot`: stores the record, or removes
    /// what is stored there if `slot` is empty.
    pub fn set_slot(&mut self, key: Identity, slot: Option<R>)
        ensures
            final(self)@ == with_slot(old(self)@, key@, slot),
    {
        match slot {
            Some(record) => {
                self.put(key, record);
            },
            None => {
                let _ = self.remove(&key);
            },
        }
    }
}

} // verus!
