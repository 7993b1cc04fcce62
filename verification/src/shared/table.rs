//! Keyed entries of a contract's storage.

use vstd::prelude::*;

use crate::shared::types::Address;

verus! {

/// What a storage entry can hold.
pub trait Stored: Sized + View {
    fn duplicate(&self) -> (r: Self)
        ensures
            r@ == self@,
    ;
}

/// What a storage entry can be kept under. Two keys are the same where their
/// views are equal.
pub trait Key: Stored {
    fn same(&self, other: &Self) -> (r: bool)
        ensures
            r == (self@ == other@),
    ;
}

impl Stored for bool {
    fn duplicate(&self) -> (r: Self) {
        *self
    }
}

impl Stored for u32 {
    fn duplicate(&self) -> (r: Self) {
        *self
    }
}

impl Stored for u64 {
    fn duplicate(&self) -> (r: Self) {
        *self
    }
}

impl Key for u64 {
    fn same(&self, other: &Self) -> (r: bool) {
        *self == *other
    }
}

impl Stored for Address {
    fn duplicate(&self) -> (r: Self) {
        *self
    }
}

impl Key for Address {
    fn same(&self, other: &Self) -> (r: bool) {
        *self == *other
    }
}

impl<T: Copy> Stored for Vec<T> {
    fn duplicate(&self) -> (r: Self) {
        let mut r: Vec<T> = Vec::new();
        let mut i: usize = 0;
        while i < self.len()
            invariant
                i <= self.len(),
                r@ =~= self@.take(i as int),
            decreases self.len() - i,
        {
            r.push(self[i]);
            i = i + 1;
        }
        assert(self@.take(i as int) =~= self@);
        r
    }
}

impl Key for Vec<u8> {
    fn same(&self, other: &Self) -> (r: bool) {
        if self.len() != other.len() {
            return false;
        }
        let mut i: usize = 0;
        while i < self.len()
            invariant
                i <= self.len(),
                self.len() == other.len(),
                forall|j: int| 0 <= j < i ==> self@[j] == other@[j],
            decreases self.len() - i,
        {
            if self[i] != other[i] {
                return false;
            }
            i = i + 1;
        }
        assert(self@ =~= other@);
        true
    }
}

/// The map that a list of entries stands for: a later entry wins over an
/// earlier one under the same key.
pub open spec fn entries_map<K: Key, V: Stored>(entries: Seq<(K, V)>) -> Map<K::V, V::V>
    decreases entries.len(),
{
    if entries.len() == 0 {
        Map::empty()
    } else {
        entries_map(entries.drop_last()).insert(entries.last().0@, entries.last().1@)
    }
}

/// Entries stored under keys. Its view is the map from the keys' views to the
/// values' views.
#[derive(Clone, Debug)]
pub struct Table<K, V> {
    pub entries: Vec<(K, V)>,
}

impl<K: Key, V: Stored> View for Table<K, V> {
    type V = Map<K::V, V::V>;

    open spec fn view(&self) -> Map<K::V, V::V> {
        entries_map(self.entries@)
    }
}

/// Where no entry has the key, the map does not hold it.
pub proof fn lemma_absent<K: Key, V: Stored>(entries: Seq<(K, V)>, key: K::V)
    requires
        forall|i: int| 0 <= i < entries.len() ==> entries[i].0@ != key,
    ensures
        !entries_map(entries).contains_key(key),
    decreases entries.len(),
{
    if entries.len() > 0 {
        lemma_absent(entries.drop_last(), key);
        assert(entries.last().0@ != key);
    }
}

/// The last entry with the key decides what the map holds under it.
pub proof fn lemma_present<K: Key, V: Stored>(entries: Seq<(K, V)>, key: K::V, at: int)
    requires
        0 <= at < entries.len(),
        entries[at].0@ == key,
        forall|i: int| at < i < entries.len() ==> entries[i].0@ != key,
    ensures
        entries_map(entries).contains_key(key),
        entries_map(entries)[key] == entries[at].1@,
    decreases entries.len(),
{
    if at < entries.len() - 1 {
        assert(entries.last().0@ != key);
        lemma_present(entries.drop_last(), key, at);
    }
}

/// Overwriting the last entry with the key is an insertion into the map.
proof fn lemma_overwrite<K: Key, V: Stored>(entries: Seq<(K, V)>, entry: (K, V), at: int)
    requires
        0 <= at < entries.len(),
        entries[at].0@ == entry.0@,
        forall|i: int| at < i < entries.len() ==> entries[i].0@ != entry.0@,
    ensures
        entries_map(entries.update(at, entry)) == entries_map(entries).insert(entry.0@, entry.1@),
    decreases entries.len(),
{
    let after = entries.update(at, entry);
    if at == entries.len() - 1 {
        assert(after.drop_last() =~= entries.drop_last());
        assert(entries_map(after) =~= entries_map(entries).insert(entry.0@, entry.1@));
    } else {
        assert(entries.last().0@ != entry.0@);
        assert(after.drop_last() =~= entries.drop_last().update(at, entry));
        lemma_overwrite(entries.drop_last(), entry, at);
        assert(entries_map(after) =~= entries_map(entries).insert(entry.0@, entry.1@));
    }
}

impl<K: Key, V: Stored> Table<K, V> {
    pub fn new() -> (r: Self)
        ensures
            r@ == Map::<K::V, V::V>::empty(),
    {
        Table { entries: Vec::new() }
    }

    /// The position of the entry that counts for the key.
    fn position(&self, key: &K) -> (r: Option<usize>)
        ensures
            match r {
                Some(at) => at < self.entries.len() && self.entries@[at as int].0@ == key@
                    && forall|i: int|
                    at < i < self.entries.len() ==> self.entries@[i].0@ != key@,
                None => forall|i: int|
                    0 <= i < self.entries.len() ==> self.entries@[i].0@ != key@,
            },
    {
        let mut n: usize = self.entries.len();
        while n > 0
            invariant
                n <= self.entries.len(),
                forall|i: int| n <= i < self.entries.len() ==> self.entries@[i].0@ != key@,
            decreases n,
        {
            n = n - 1;
            if self.entries[n].0.same(key) {
                return Some(n);
            }
        }
        None
    }

    /// What is stored under the key.
    pub fn get(&self, key: &K) -> (r: Option<V>)
        ensures
            match r {
                Some(value) => self@.get(key@) == Some(value@),
                None => self@.get(key@) is None,
            },
    {
        match self.position(key) {
            Some(at) => {
                proof {
                    lemma_present(self.entries@, key@, at as int);
                }
                Some(self.entries[at].1.duplicate())
            },
            None => {
                proof {
                    lemma_absent(self.entries@, key@);
                }
                None
            },
        }
    }

    /// Whether anything is stored under the key.
    pub fn has(&self, key: &K) -> (r: bool)
        ensures
            r == self@.contains_key(key@),
    {
        self.get(key).is_some()
    }

    /// Whether nothing is stored at all.
    pub fn is_empty(&self) -> (r: bool)
        ensures
            r == (self@ == Map::<K::V, V::V>::empty()),
    {
        if self.entries.len() == 0 {
            return true;
        }
        assert(self@.contains_key(self.entries@.last().0@));
        false
    }

    /// Stores the value under the key, in place of what was there.
    pub fn set(&mut self, key: K, value: V)
        ensures
            final(self)@ == old(self)@.insert(key@, value@),
    {
        match self.position(&key) {
            Some(at) => {
                proof {
                    lemma_overwrite(self.entries@, (key, value), at as int);
                }
                self.entries.set(at, (key, value));
            },
            None => {
                self.entries.push((key, value));
                assert(self.entries@.drop_last() =~= old(self).entries@);
            },
        }
    }

    /// Removes what is stored under the key, if anything is.
    pub fn remove(&mut self, key: &K)
        ensures
            final(self)@ == old(self)@.remove(key@),
    {
        let mut kept: Vec<(K, V)> = Vec::new();
        let mut i: usize = 0;
        assert(entries_map(kept@) =~= entries_map(self.entries@.take(0)).remove(key@));
        while i < self.entries.len()
            invariant
                i <= self.entries.len(),
                self.entries@ == old(self).entries@,
                entries_map(kept@) == entries_map(self.entries@.take(i as int)).remove(key@),
            decreases self.entries.len() - i,
        {
            let ghost before = kept@;
            if !self.entries[i].0.same(key) {
                kept.push((self.entries[i].0.duplicate(), self.entries[i].1.duplicate()));
                assert(kept@.drop_last() =~= before);
            }
            assert(self.entries@.take(i + 1).drop_last() =~= self.entries@.take(i as int));
            assert(entries_map(kept@) =~= entries_map(self.entries@.take(i + 1)).remove(key@));
            i = i + 1;
        }
        assert(self.entries@.take(i as int) =~= self.entries@);
        self.entries = kept;
    }
}

} // verus!
