//! A small keyed table: each key occurs at most once.

use vstd::prelude::*;
use crate::address::Address;

verus! {

/// A key of a table: two keys are the same where their views are.
pub trait Key: View + Sized {
    /// Whether two keys are the same.
    fn same_key(&self, other: &Self) -> (r: bool)
        ensures
            r == (self@ == other@),
    ;
}

impl Key for Address {
    fn same_key(&self, other: &Address) -> (r: bool) {
        self.same(other)
    }
}

/// One key with its value.
pub struct Entry<K, V> {
    key: K,
    value: V,
}

/// A finite map from keys to values, kept as a list without repeated keys.
pub struct Table<K: Key, V: Copy> {
    entries: Vec<Entry<K, V>>,
    contents: Ghost<Map<K::V, V>>,
}

impl<K: Key, V: Copy> View for Table<K, V> {
    type V = Map<K::V, V>;

    closed spec fn view(&self) -> Map<K::V, V> {
        self.contents@
    }
}

impl<K: Key, V: Copy> Table<K, V> {
    /// The list holds exactly what the map holds, each key once.
    pub closed spec fn wf(&self) -> bool {
        &&& forall|i: int|
            0 <= i < self.entries@.len() ==> {
                &&& self.contents@.contains_key(#[trigger] self.entries@[i].key@)
                &&& self.contents@[self.entries@[i].key@] == self.entries@[i].value
            }
        &&& forall|k: K::V| #[trigger]
            self.contents@.contains_key(k) ==> exists|i: int|
                0 <= i < self.entries@.len() && #[trigger] self.entries@[i].key@ == k
        &&& forall|i: int, j: int|
            0 <= i < j < self.entries@.len() ==> #[trigger] self.entries@[i].key@
                != #[trigger] self.entries@[j].key@
    }

    /// The empty table.
    pub fn new() -> (r: Self)
        ensures
            r.wf(),
            r@ == Map::<K::V, V>::empty(),
    {
        Table { entries: Vec::new(), contents: Ghost(Map::empty()) }
    }

    /// Where the key stands in the list, if it does.
    fn position(&self, key: &K) -> (r: Option<usize>)
        requires
            self.wf(),
        ensures
            match r {
                Some(i) => i < self.entries@.len() && self.entries@[i as int].key@ == key@,
                None => !self@.contains_key(key@),
            },
    {
        let mut i: usize = 0;
        while i < self.entries.len()
            invariant
                self.wf(),
                i <= self.entries@.len(),
                forall|j: int| 0 <= j < i ==> self.entries@[j].key@ != key@,
            decreases self.entries@.len() - i,
        {
            if self.entries[i].key.same_key(key) {
                return Some(i);
            }
            i += 1;
        }
        None
    }

    /// The value under a key, if the table holds the key.
    pub fn get(&self, key: &K) -> (r: Option<V>)
        requires
            self.wf(),
        ensures
            r == (if self@.contains_key(key@) {
                Some(self@[key@])
            } else {
                None
            }),
    {
        match self.position(key) {
            Some(i) => Some(self.entries[i].value),
            None => None,
        }
    }

    /// Whether the table holds a key.
    pub fn contains(&self, key: &K) -> (r: bool)
        requires
            self.wf(),
        ensures
            r == self@.contains_key(key@),
    {
        self.position(key).is_some()
    }

    /// Puts a value under a key, in place of any value that stood there.
    pub fn set(&mut self, key: K, value: V)
        requires
            old(self).wf(),
        ensures
            final(self).wf(),
            final(self)@ == old(self)@.insert(key@, value),
    {
        let ghost id = key@;
        let ghost at: int;
        match self.position(&key) {
            Some(i) => {
                self.entries[i] = Entry { key, value };
                proof {
                    at = i as int;
                }
            },
            None => {
                self.entries.push(Entry { key, value });
                proof {
                    at = self.entries@.len() - 1;
                }
            },
        }
        self.contents = Ghost(self.contents@.insert(id, value));
        proof {
            assert(self.entries@[at].key@ == id);
            assert forall|k: K::V| #[trigger] self.contents@.contains_key(k) implies exists|i: int|
                0 <= i < self.entries@.len() && #[trigger] self.entries@[i].key@ == k by {
                if k != id {
                    let i = choose|i: int|
                        0 <= i < old(self).entries@.len() && #[trigger] old(self).entries@[i].key@
                            == k;
                    assert(self.entries@[i].key@ == k);
                }
            }
        }
    }

    /// Takes a key out of the table, with its value.
    pub fn remove(&mut self, key: &K) -> (r: Option<V>)
        requires
            old(self).wf(),
        ensures
            final(self).wf(),
            final(self)@ == old(self)@.remove(key@),
            r == (if old(self)@.contains_key(key@) {
                Some(old(self)@[key@])
            } else {
                None
            }),
    {
        match self.position(key) {
            None => {
                assert(self.contents@.remove(key@) =~= self.contents@);
                None
            },
            Some(i) => {
                let entry = self.entries.swap_remove(i);
                self.contents = Ghost(self.contents@.remove(key@));
                proof {
                    let n = old(self).entries@.len() as int;
                    assert forall|k: K::V| #[trigger]
                        self.contents@.contains_key(k) implies exists|j: int|
                        0 <= j < self.entries@.len() && #[trigger] self.entries@[j].key@ == k by {
                        let j = choose|j: int|
                            0 <= j < n && #[trigger] old(self).entries@[j].key@ == k;
                        if j == n - 1 {
                            assert(self.entries@[i as int].key@ == k);
                        } else {
                            assert(self.entries@[j].key@ == k);
                        }
                    }
                    assert forall|a: int|
                        0 <= a < self.entries@.len() implies self.contents@.contains_key(
                        #[trigger] self.entries@[a].key@,
                    ) && self.contents@[self.entries@[a].key@] == self.entries@[a].value by {
                        if a == i {
                            assert(old(self).entries@[n - 1].key@ != old(self).entries@[i as int].key@);
                        } else {
                            assert(old(self).entries@[a].key@ != old(self).entries@[i as int].key@);
                        }
                    }
                }
                Some(entry.value)
            },
        }
    }
}

} // verus!
