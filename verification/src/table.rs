//! An insertion-ordered table keyed by strings.
//!
//! The table keeps its entries in a vector, in the order in which their keys
//! were first inserted, and never holds a key twice. Walking it is therefore
//! deterministic, which the control plane relies on wherever several entries
//! would qualify and one has to be picked.

use vstd::prelude::*;
use crate::text::str_eq;

verus! {

/// One entry of a [`Table`].
#[derive(Debug)]
pub struct Entry<V> {
    pub key: String,
    pub value: V,
}

/// A table from string keys to values that remembers insertion order.
#[derive(Debug)]
pub struct Table<V> {
    entries: Vec<Entry<V>>,
}

/// Whether no element of `s` occurs at two positions.
pub open spec fn distinct(s: Seq<Seq<char>>) -> bool {
    forall|i: int, j: int| 0 <= i < j < s.len() ==> s[i] != s[j]
}

/// The keys of a run of entries, in order.
pub open spec fn keys_of<V>(entries: Seq<Entry<V>>) -> Seq<Seq<char>> {
    Seq::new(entries.len(), |i: int| entries[i].key@)
}

/// The values of a run of entries, in order.
pub open spec fn values_of<V>(entries: Seq<Entry<V>>) -> Seq<V> {
    Seq::new(entries.len(), |i: int| entries[i].value)
}

impl<V> View for Table<V> {
    type V = Map<Seq<char>, V>;

    /// The table as a finite map, forgetting the order of its entries.
    open spec fn view(&self) -> Map<Seq<char>, V> {
        Map::new(
            |k: Seq<char>| self.keys().contains(k),
            |k: Seq<char>| self.values()[self.keys().index_of(k)],
        )
    }
}

impl<V> Table<V> {
    /// The keys, in insertion order.
    pub closed spec fn keys(&self) -> Seq<Seq<char>> {
        keys_of(self.entries@)
    }

    /// The values, each at the position of its key.
    pub closed spec fn values(&self) -> Seq<V> {
        values_of(self.entries@)
    }

    /// Keys and values line up and no key occurs twice.
    pub open spec fn wf(&self) -> bool {
        &&& self.keys().len() == self.values().len()
        &&& distinct(self.keys())
    }

    #[verifier::type_invariant]
    pub open spec fn inv(&self) -> bool {
        self.wf()
    }

    /// In a well-formed table the map view and the two sequences agree.
    pub proof fn lemma_view(&self)
        requires
            self.wf(),
        ensures
            self@.dom().finite(),
            forall|i: int|
                0 <= i < self.keys().len() ==> self@.contains_key(#[trigger] self.keys()[i])
                    && self@[self.keys()[i]] == self.values()[i],
            forall|k: Seq<char>| #[trigger]
                self@.contains_key(k) <==> self.keys().contains(k),
    {
        let keys = self.keys();
        assert forall|i: int| 0 <= i < keys.len() implies self@.contains_key(#[trigger] keys[i])
            && self@[keys[i]] == self.values()[i] by {
            assert(keys.contains(keys[i]));
            let j = keys.index_of(keys[i]);
            assert(keys[j] == keys[i]);
        }
        assert(self@.dom() =~= keys.to_set());
        vstd::seq_lib::seq_to_set_is_finite(keys);
    }

    /// An empty table.
    pub fn new() -> (t: Self)
        ensures
            t.keys() == Seq::<Seq<char>>::empty(),
            t.values() == Seq::<V>::empty(),
            t@ == Map::<Seq<char>, V>::empty(),
            t.wf(),
    {
        let t = Table { entries: Vec::new() };
        assert(t.keys() =~= Seq::<Seq<char>>::empty());
        assert(t.values() =~= Seq::<V>::empty());
        assert(t@ =~= Map::<Seq<char>, V>::empty());
        t
    }

    /// The number of entries.
    pub fn len(&self) -> (n: usize)
        ensures
            n == self.keys().len(),
            n == self.values().len(),
            n == self@.len(),
    {
        proof {
            use_type_invariant(self);
            self.lemma_view();
            self.keys().unique_seq_to_set();
            assert(self@.dom() =~= self.keys().to_set());
        }
        self.entries.len()
    }

    /// Whether the table holds no entry.
    pub fn is_empty(&self) -> (b: bool)
        ensures
            b == (self.keys().len() == 0),
    {
        self.entries.len() == 0
    }

    /// The position of `key`, if the table holds it.
    pub fn position(&self, key: &str) -> (r: Option<usize>)
        ensures
            self.wf(),
            match r {
                Some(i) => i < self.keys().len() && self.keys()[i as int] == key@,
                None => !self.keys().contains(key@),
            },
    {
        proof {
            use_type_invariant(self);
        }
        let n: usize = self.entries.len();
        let mut i: usize = 0;
        while i < n
            invariant
                self.wf(),
                n == self.entries@.len(),
                i <= n,
                forall|k: int| 0 <= k < i ==> self.keys()[k] != key@,
            decreases n - i,
        {
            if str_eq(self.entries[i].key.as_str(), key) {
                return Some(i);
            }
            i += 1;
        }
        None
    }

    /// Whether the table holds `key`.
    pub fn contains_key(&self, key: &str) -> (b: bool)
        ensures
            b == self.keys().contains(key@),
            b == self@.contains_key(key@),
    {
        self.position(key).is_some()
    }

    /// The value stored under `key`.
    pub fn get(&self, key: &str) -> (r: Option<&V>)
        ensures
            self.wf(),
            match r {
                Some(v) => self@.contains_key(key@) && *v == self@[key@],
                None => !self@.contains_key(key@),
            },
    {
        proof {
            use_type_invariant(self);
            self.lemma_view();
        }
        match self.position(key) {
            Some(i) => Some(&self.entries[i].value),
            None => None,
        }
    }

    /// The key at position `i`.
    pub fn key_at(&self, i: usize) -> (k: &String)
        requires
            i < self.keys().len(),
        ensures
            k@ == self.keys()[i as int],
    {
        &self.entries[i].key
    }

    /// The value at position `i`.
    pub fn value_at(&self, i: usize) -> (v: &V)
        requires
            i < self.values().len(),
        ensures
            *v == self.values()[i as int],
            self.wf(),
            self@.contains_key(self.keys()[i as int]),
            *v == self@[self.keys()[i as int]],
    {
        proof {
            use_type_invariant(self);
            self.lemma_view();
        }
        &self.entries[i].value
    }

    /// Puts `value` at position `i` and hands back the value that was there.
    /// The key and its place stay.
    pub fn replace_value_at(&mut self, i: usize, value: V) -> (previous: V)
        requires
            i < old(self).values().len(),
        ensures
            final(self).wf(),
            previous == old(self).values()[i as int],
            final(self).keys() == old(self).keys(),
            final(self).values() == old(self).values().update(i as int, value),
            final(self)@ == old(self)@.insert(old(self).keys()[i as int], value),
    {
        proof {
            use_type_invariant(&*self);
            self.lemma_view();
        }
        let ghost before = *self;
        let mut held = value;
        let mut entries: Vec<Entry<V>> = Vec::new();
        core::mem::swap(&mut self.entries, &mut entries);
        core::mem::swap(&mut entries[i].value, &mut held);
        proof {
            assert(keys_of(entries@) =~= before.keys());
        }
        core::mem::swap(&mut self.entries, &mut entries);
        proof {
            assert(self.keys() =~= before.keys());
            assert(self.values() =~= before.values().update(i as int, value));
            self.lemma_view();
            lemma_update_is_insert(before, *self, i as int, value);
        }
        held
    }

    /// Replaces the value at position `i`, keeping its key and its place.
    pub fn set_value_at(&mut self, i: usize, value: V)
        requires
            i < old(self).values().len(),
        ensures
            final(self).wf(),
            final(self).keys() == old(self).keys(),
            final(self).values() == old(self).values().update(i as int, value),
            final(self)@ == old(self)@.insert(old(self).keys()[i as int], value),
    {
        let _ = self.replace_value_at(i, value);
    }

    /// Stores `value` under `key`. A key already held keeps its place and
    /// gets the new value; a new key goes to the end.
    pub fn insert(&mut self, key: String, value: V)
        ensures
            final(self).wf(),
            final(self)@ == old(self)@.insert(key@, value),
            old(self).keys().contains(key@) ==> final(self).keys() == old(self).keys()
                && final(self).values() == old(self).values().update(
                old(self).keys().index_of(key@),
                value,
            ),
            !old(self).keys().contains(key@) ==> final(self).keys() == old(self).keys().push(key@)
                && final(self).values() == old(self).values().push(value),
    {
        proof {
            use_type_invariant(&*self);
            self.lemma_view();
        }
        let ghost before = *self;
        match self.position(key.as_str()) {
            Some(i) => {
                proof {
                    let j = before.keys().index_of(key@);
                    assert(before.keys().contains(key@));
                    assert(before.keys()[j] == key@);
                    assert(j == i);
                }
                self.set_value_at(i, value);
            },
            None => {
                let mut entries: Vec<Entry<V>> = Vec::new();
                core::mem::swap(&mut self.entries, &mut entries);
                entries.push(Entry { key, value });
                proof {
                    assert(keys_of(entries@) =~= before.keys().push(key@));
                    assert(values_of(entries@) =~= before.values().push(value));
                    lemma_push_keeps_distinct(before.keys(), key@);
                }
                core::mem::swap(&mut self.entries, &mut entries);
                proof {
                    assert(self.keys() =~= before.keys().push(key@));
                    assert(self.values() =~= before.values().push(value));
                    lemma_push_is_insert(before, *self, key@, value);
                }
            },
        }
    }
}

/// Appending a key that a duplicate-free sequence lacks keeps it
/// duplicate-free.
pub proof fn lemma_push_keeps_distinct(keys: Seq<Seq<char>>, key: Seq<char>)
    requires
        distinct(keys),
        !keys.contains(key),
    ensures
        distinct(keys.push(key)),
{
    let after = keys.push(key);
    assert forall|i: int, j: int| 0 <= i < j < after.len() implies after[i] != after[j] by {
        if j == keys.len() {
            assert(keys[i] == after[i]);
            assert(keys.contains(keys[i]));
        }
    }
}

/// Replacing the value at one position of a well-formed table is a map
/// insertion under that position's key.
proof fn lemma_update_is_insert<V>(before: Table<V>, after: Table<V>, i: int, value: V)
    requires
        before.wf(),
        0 <= i < before.keys().len(),
        after.keys() == before.keys(),
        after.values() == before.values().update(i, value),
    ensures
        after.wf(),
        after@ == before@.insert(before.keys()[i], value),
{
    before.lemma_view();
    after.lemma_view();
    let key = before.keys()[i];
    assert forall|k: Seq<char>| after@.contains_key(k) implies #[trigger] after@[k]
        == before@.insert(key, value)[k] by {
        let j = before.keys().index_of(k);
        assert(before.keys().contains(k));
        assert(before.keys()[j] == k);
        if k == key {
            assert(j == i);
        } else {
            assert(j != i);
        }
    }
    assert(after@ =~= before@.insert(key, value));
}

/// Appending an entry under a key that a well-formed table does not hold is
/// a map insertion.
proof fn lemma_push_is_insert<V>(before: Table<V>, after: Table<V>, key: Seq<char>, value: V)
    requires
        before.wf(),
        !before.keys().contains(key),
        after.keys() == before.keys().push(key),
        after.values() == before.values().push(value),
    ensures
        after.wf(),
        after@ == before@.insert(key, value),
{
    let n = before.keys().len() as int;
    lemma_push_keeps_distinct(before.keys(), key);
    before.lemma_view();
    after.lemma_view();
    assert(after.keys()[n] == key);
    assert forall|k: Seq<char>| after@.contains_key(k) <==> before@.insert(
        key,
        value,
    ).contains_key(k) by {
        if before.keys().contains(k) {
            let j = before.keys().index_of(k);
            assert(after.keys()[j] == k);
        }
        if after.keys().contains(k) && k != key {
            let j = after.keys().index_of(k);
            assert(after.keys()[j] == k);
            assert(j != n);
            assert(before.keys()[j] == k);
        }
    }
    assert forall|k: Seq<char>| after@.contains_key(k) implies #[trigger] after@[k]
        == before@.insert(key, value)[k] by {
        let j = after.keys().index_of(k);
        assert(after.keys().contains(k));
        assert(after.keys()[j] == k);
        if k != key {
            assert(j != n);
            assert(before.keys()[j] == k);
            assert(before@[before.keys()[j]] == before.values()[j]);
        } else {
            assert(j == n);
        }
    }
    assert(after@ =~= before@.insert(key, value));
}

} // verus!
