//! An insertion-ordered map keyed by strings.
//!
//! Schemas, documents and identifier pools are all maps from a name to a
//! value in which the order of first insertion is kept. The map is modelled by
//! the sequence of its entries, each a pair of the key's characters and the
//! value.
//!
//! No two entries of a map share a key. This holds of every map that exists:
//! the methods that read a map say so in their contracts, for the proofs that
//! need it.

use crate::text::same_text;
use vstd::prelude::*;

verus! {

/// One key with its value.
#[derive(Debug, PartialEq)]
pub struct Entry<V> {
    pub key: String,
    pub value: V,
}

/// A map from strings to `V` that keeps its entries in the order in which
/// their keys were first inserted.
#[derive(Debug, PartialEq)]
pub struct OrderedMap<V> {
    pub(crate) entries: Vec<Entry<V>>,
}

/// No two entries of `s` share a key.
pub open spec fn keys_distinct<V>(s: Seq<(Seq<char>, V)>) -> bool {
    forall|i: int, j: int| 0 <= i < j < s.len() ==> (#[trigger] s[i]).0 != (#[trigger] s[j]).0
}

/// Some entry of `s` has the key `key`.
pub open spec fn has_key<V>(s: Seq<(Seq<char>, V)>, key: Seq<char>) -> bool {
    exists|i: int| 0 <= i < s.len() && (#[trigger] s[i]).0 == key
}

/// The position of an entry of `s` with the key `key`, where there is one.
pub open spec fn index_of_key<V>(s: Seq<(Seq<char>, V)>, key: Seq<char>) -> int {
    choose|i: int| 0 <= i < s.len() && (#[trigger] s[i]).0 == key
}

/// The value that `s` holds under `key`.
pub open spec fn lookup<V>(s: Seq<(Seq<char>, V)>, key: Seq<char>) -> Option<V> {
    if has_key(s, key) {
        Some(s[index_of_key(s, key)].1)
    } else {
        None
    }
}

/// `s` after `value` was stored under `key`: the entry of that key keeps its
/// place and gets the new value; a new key goes to the end.
pub open spec fn with_entry<V>(s: Seq<(Seq<char>, V)>, key: Seq<char>, value: V) -> Seq<
    (Seq<char>, V),
> {
    if has_key(s, key) {
        s.update(index_of_key(s, key), (key, value))
    } else {
        s.push((key, value))
    }
}

/// In a sequence with distinct keys, the entry at `i` is the one that its key
/// finds.
pub proof fn lemma_key_finds_entry<V>(s: Seq<(Seq<char>, V)>, i: int)
    requires
        keys_distinct(s),
        0 <= i < s.len(),
    ensures
        has_key(s, s[i].0),
        index_of_key(s, s[i].0) == i,
        lookup(s, s[i].0) == Some(s[i].1),
{
    let j = index_of_key(s, s[i].0);
    assert(0 <= j < s.len() && s[j].0 == s[i].0);
    if j < i {
        assert(s[j].0 != s[i].0);
    } else if i < j {
        assert(s[i].0 != s[j].0);
    }
}

/// Storing a value keeps the keys distinct.
pub proof fn lemma_with_entry_keeps_keys_distinct<V>(
    s: Seq<(Seq<char>, V)>,
    key: Seq<char>,
    value: V,
)
    requires
        keys_distinct(s),
    ensures
        keys_distinct(with_entry(s, key, value)),
{
    let t = with_entry(s, key, value);
    if has_key(s, key) {
        let p = index_of_key(s, key);
        assert forall|i: int, j: int| 0 <= i < j < t.len() implies (#[trigger] t[i]).0 != (
        #[trigger] t[j]).0 by {
            assert(t[i].0 == s[i].0);
            assert(t[j].0 == s[j].0);
        }
    } else {
        assert forall|i: int, j: int| 0 <= i < j < t.len() implies (#[trigger] t[i]).0 != (
        #[trigger] t[j]).0 by {
            if j == s.len() {
                assert(s[i].0 != key);
            } else {
                assert(t[i].0 == s[i].0);
                assert(t[j].0 == s[j].0);
            }
        }
    }
}

/// What was stored under a key is what that key finds afterwards, and every
/// other key finds what it found before.
pub proof fn lemma_lookup_after_store<V>(
    s: Seq<(Seq<char>, V)>,
    key: Seq<char>,
    value: V,
    other: Seq<char>,
)
    requires
        keys_distinct(s),
    ensures
        lookup(with_entry(s, key, value), key) == Some(value),
        other != key ==> lookup(with_entry(s, key, value), other) == lookup(s, other),
{
    let t = with_entry(s, key, value);
    lemma_with_entry_keeps_keys_distinct(s, key, value);
    let p = if has_key(s, key) {
        index_of_key(s, key)
    } else {
        s.len() as int
    };
    assert(t[p] == (key, value));
    lemma_key_finds_entry(t, p);
    if other != key {
        if has_key(s, other) {
            let q = index_of_key(s, other);
            assert(t[q] == s[q]);
            lemma_key_finds_entry(t, q);
        } else if has_key(t, other) {
            let q = index_of_key(t, other);
            assert(q != p);
            assert(s[q].0 == other);
        }
    }
}

/// The model of a list of entries: each key by its characters.
pub open spec fn entries_view<V>(entries: Seq<Entry<V>>) -> Seq<(Seq<char>, V)> {
    Seq::new(entries.len(), |i: int| (entries[i].key@, entries[i].value))
}

impl<V> OrderedMap<V> {
    #[verifier::type_invariant]
    spec fn keys_are_distinct(self) -> bool {
        keys_distinct(self@)
    }

    /// The entries in insertion order, each key by its characters.
    pub open(crate) spec fn view(&self) -> Seq<(Seq<char>, V)> {
        entries_view(self.entries@)
    }

    /// The empty map.
    pub fn new() -> (map: Self)
        ensures
            map@ == Seq::<(Seq<char>, V)>::empty(),
    {
        let map = OrderedMap { entries: Vec::new() };
        assert(map@ =~= Seq::<(Seq<char>, V)>::empty());
        map
    }

    /// The number of entries.
    pub fn len(&self) -> (n: usize)
        ensures
            n == self@.len(),
            keys_distinct(self@),
    {
        proof {
            use_type_invariant(self);
        }
        self.entries.len()
    }

    /// Whether the map has no entry.
    pub fn is_empty(&self) -> (empty: bool)
        ensures
            empty == (self@.len() == 0),
    {
        self.entries.len() == 0
    }

    /// The key of the entry at position `i`.
    pub fn key_at(&self, i: usize) -> (key: &String)
        requires
            i < self@.len(),
        ensures
            key@ == self@[i as int].0,
    {
        &self.entries[i].key
    }

    /// The value of the entry at position `i`.
    pub fn value_at(&self, i: usize) -> (value: &V)
        requires
            i < self@.len(),
        ensures
            *value == self@[i as int].1,
    {
        &self.entries[i].value
    }

    /// The position of the entry with the key `key`.
    pub fn position(&self, key: &str) -> (found: Option<usize>)
        ensures
            keys_distinct(self@),
            match found {
                Some(i) => i < self@.len() && self@[i as int].0 == key@ && index_of_key(
                    self@,
                    key@,
                ) == i,
                None => !has_key(self@, key@),
            },
            found is Some <==> has_key(self@, key@),
    {
        proof {
            use_type_invariant(self);
        }
        let mut i: usize = 0;
        while i < self.entries.len()
            invariant
                i <= self.entries.len(),
                self.entries.len() == self@.len(),
                keys_distinct(self@),
                forall|j: int| 0 <= j < i ==> (#[trigger] self@[j]).0 != key@,
            decreases self.entries.len() - i,
        {
            if same_text(self.entries[i].key.as_str(), key) {
                proof {
                    lemma_key_finds_entry(self@, i as int);
                }
                return Some(i);
            }
            i += 1;
        }
        None
    }

    /// Whether some entry has the key `key`.
    pub fn contains_key(&self, key: &str) -> (found: bool)
        ensures
            found == has_key(self@, key@),
    {
        self.position(key).is_some()
    }

    /// The value stored under `key`.
    pub fn get(&self, key: &str) -> (found: Option<&V>)
        ensures
            keys_distinct(self@),
            match found {
                Some(value) => lookup(self@, key@) == Some(*value),
                None => lookup(self@, key@) is None,
            },
    {
        match self.position(key) {
            Some(i) => Some(&self.entries[i].value),
            None => None,
        }
    }

    /// Stores `value` under `key`. The entry of a key that is already present
    /// keeps its place and gets the new value; a new key goes to the end.
    pub fn insert(&mut self, key: String, value: V)
        ensures
            final(self)@ == with_entry(old(self)@, key@, value),
            keys_distinct(final(self)@),
    {
        let found = self.position(key.as_str());
        let ghost before = self@;
        let mut taken = OrderedMap { entries: Vec::new() };
        std::mem::swap(self, &mut taken);
        let OrderedMap { entries } = taken;
        let mut entries = entries;
        let ghost stored = (key@, value);
        match found {
            Some(i) => {
                entries.set(i, Entry { key, value });
            },
            None => {
                entries.push(Entry { key, value });
            },
        }
        proof {
            lemma_with_entry_keeps_keys_distinct(before, stored.0, stored.1);
            assert(entries_view(entries@) =~= with_entry(before, stored.0, stored.1));
        }
        *self = OrderedMap { entries };
    }
}

} // verus!
