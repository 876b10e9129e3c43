//! A key-value store of strings held in memory.
//!
//! The bootstrap flow persists the identifier under one key of a string
//! store. The flow itself never touches a store: it tells its caller what to
//! read and what to write. This module fixes what the two operations mean,
//! as a map from keys to values, and offers a store that keeps that promise
//! for use where no persistent one is at hand.

use vstd::prelude::*;

verus! {

/// The key under which the client identifier is persisted.
pub const UID_KEY: &'static str = "SNEK_HQ_UID";

/// One stored pair.
struct Entry {
    key: String,
    value: String,
}

/// A store of string values by string keys.
///
/// The view is the map from each key that was set to the value it was last
/// set to.
pub struct KeyValueStore {
    entries: Vec<Entry>,
}

/// The map that a list of pairs stands for. A later pair replaces an
/// earlier one of the same key.
spec fn entries_map(entries: Seq<Entry>) -> Map<Seq<char>, Seq<char>>
    decreases entries.len(),
{
    if entries.len() == 0 {
        Map::empty()
    } else {
        entries_map(entries.drop_last()).insert(entries.last().key@, entries.last().value@)
    }
}

impl View for KeyValueStore {
    type V = Map<Seq<char>, Seq<char>>;

    closed spec fn view(&self) -> Map<Seq<char>, Seq<char>> {
        entries_map(self.entries@)
    }
}

/// What reading `key` from a store with contents `store` gives: the value,
/// or nothing where the key was never set.
pub open spec fn store_get(store: Map<Seq<char>, Seq<char>>, key: Seq<char>) -> Option<Seq<char>> {
    if store.contains_key(key) {
        Some(store[key])
    } else {
        None
    }
}

/// The contents of a store after `value` was written under `key`.
pub open spec fn store_set(
    store: Map<Seq<char>, Seq<char>>,
    key: Seq<char>,
    value: Seq<char>,
) -> Map<Seq<char>, Seq<char>> {
    store.insert(key, value)
}

/// Whether no pair in `entries` carries `key`.
spec fn is_absent(entries: Seq<Entry>, key: Seq<char>) -> bool {
    forall|j: int| 0 <= j < entries.len() ==> entries[j].key@ != key
}

/// Whether `at` is the position of the last pair in `entries` that carries
/// `key`.
spec fn is_last_occurrence(entries: Seq<Entry>, key: Seq<char>, at: int) -> bool {
    &&& 0 <= at < entries.len()
    &&& entries[at].key@ == key
    &&& forall|j: int| at < j < entries.len() ==> entries[j].key@ != key
}

/// A key that no pair carries is not in the map.
proof fn lemma_absent(entries: Seq<Entry>, key: Seq<char>)
    requires
        is_absent(entries, key),
    ensures
        !entries_map(entries).contains_key(key),
    decreases entries.len(),
{
    if entries.len() > 0 {
        lemma_absent(entries.drop_last(), key);
    }
}

/// The map gives for a key the value of the last pair that carries it.
proof fn lemma_last_occurrence(entries: Seq<Entry>, at: int, key: Seq<char>)
    requires
        is_last_occurrence(entries, key, at),
    ensures
        entries_map(entries).contains_key(key),
        entries_map(entries)[key] == entries[at].value@,
    decreases entries.len(),
{
    if at < entries.len() - 1 {
        lemma_last_occurrence(entries.drop_last(), at, key);
    }
}

/// Replacing the last pair of a key writes the new value under that key and
/// changes nothing else.
proof fn lemma_replace_last_occurrence(entries: Seq<Entry>, at: int, entry: Entry)
    requires
        is_last_occurrence(entries, entry.key@, at),
    ensures
        entries_map(entries.update(at, entry)) == entries_map(entries).insert(
            entry.key@,
            entry.value@,
        ),
    decreases entries.len(),
{
    let updated = entries.update(at, entry);
    if at == entries.len() - 1 {
        assert(updated.drop_last() == entries.drop_last());
    } else {
        lemma_replace_last_occurrence(entries.drop_last(), at, entry);
        assert(updated.drop_last() == entries.drop_last().update(at, entry));
    }
    assert(entries_map(updated) =~= entries_map(entries).insert(entry.key@, entry.value@));
}

impl KeyValueStore {
    /// An empty store.
    pub fn new() -> (s: Self)
        ensures
            s@ == Map::<Seq<char>, Seq<char>>::empty(),
    {
        KeyValueStore { entries: Vec::new() }
    }

    /// The position of the last pair that carries `key`, if there is one.
    fn find(&self, key: &String) -> (found: Option<usize>)
        ensures
            found matches Some(at) ==> is_last_occurrence(self.entries@, key@, at as int),
            found is None ==> is_absent(self.entries@, key@),
    {
        let mut i: usize = self.entries.len();
        while i > 0
            invariant
                i <= self.entries@.len(),
                forall|j: int| i <= j < self.entries@.len() ==> self.entries@[j].key@ != key@,
            decreases i,
        {
            i = i - 1;
            if self.entries[i].key == *key {
                return Some(i);
            }
        }
        None
    }

    /// The value stored under `key`, or `None` where the key was never set.
    pub fn get(&self, key: &str) -> (found: Option<String>)
        ensures
            found is Some <==> self@.contains_key(key@),
            found matches Some(value) ==> store_get(self@, key@) == Some(value@),
    {
        let wanted: String = key.to_owned();
        match self.find(&wanted) {
            Some(at) => {
                proof {
                    lemma_last_occurrence(self.entries@, at as int, key@);
                }
                Some(self.entries[at].value.clone())
            },
            None => {
                proof {
                    lemma_absent(self.entries@, key@);
                }
                None
            },
        }
    }

    /// Stores `value` under `key`, in place of what was stored there.
    pub fn set(&mut self, key: &str, value: &str)
        ensures
            final(self)@ == store_set(old(self)@, key@, value@),
    {
        let entry = Entry { key: key.to_owned(), value: value.to_owned() };
        match self.find(&entry.key) {
            Some(at) => {
                proof {
                    lemma_replace_last_occurrence(self.entries@, at as int, entry);
                }
                self.entries.set(at, entry);
            },
            None => {
                assert(self.entries@.push(entry).drop_last() == self.entries@);
                self.entries.push(entry);
            },
        }
    }
}

/// Writing the same value under the same key a second time changes nothing:
/// the store holds what it held after the first write, and reading the key
/// gives that value.
pub proof fn lemma_set_is_idempotent(
    store: Map<Seq<char>, Seq<char>>,
    key: Seq<char>,
    value: Seq<char>,
)
    ensures
        store_set(store_set(store, key, value), key, value) == store_set(store, key, value),
        store_get(store_set(store_set(store, key, value), key, value), key) == Some(value),
{
    assert(store.insert(key, value).insert(key, value) =~= store.insert(key, value));
}

/// A write is seen by the next read of the same key and by no read of
/// another key.
pub proof fn lemma_get_after_set(
    store: Map<Seq<char>, Seq<char>>,
    key: Seq<char>,
    value: Seq<char>,
    other: Seq<char>,
)
    ensures
        store_get(store_set(store, key, value), key) == Some(value),
        other != key ==> store_get(store_set(store, key, value), other) == store_get(store, other),
{
}

} // verus!
