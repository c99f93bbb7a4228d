//! A small keyed table: the stand-in for one table of ledger storage.
//!
//! A table holds at most one value per key. Its view is the `Map` from the
//! keys' views to the values' views; every operation is stated over that map.

use crate::identity::same_bytes;
use vstd::prelude::*;

verus! {

/// A key of a table: a value whose equality test decides equality of views.
pub trait Key: View + Sized {
    /// Whether `self` and `other` are the same key.
    fn same_key(&self, other: &Self) -> (r: bool)
        ensures
            r == (self@ == other@),
    ;
}

impl Key for u64 {
    fn same_key(&self, other: &Self) -> (r: bool) {
        *self == *other
    }
}

impl Key for String {
    fn same_key(&self, other: &Self) -> (r: bool) {
        *self == *other
    }
}

impl<const N: usize> Key for [u8; N] {
    fn same_key(&self, other: &Self) -> (r: bool) {
        same_bytes(self, other)
    }
}

impl<A: Key, B: Key> Key for (A, B) {
    fn same_key(&self, other: &Self) -> (r: bool) {
        self.0.same_key(&other.0) && self.1.same_key(&other.1)
    }
}

/// A table from keys to values, with at most one value per key.
pub struct Table<K: Key, V: View> {
    entries: Vec<(K, V)>,
}

impl<K: Key, V: View> View for Table<K, V> {
    type V = Map<K::V, V::V>;

    closed spec fn view(&self) -> Map<K::V, V::V> {
        Map::new(|k: K::V| self.holds(k), |k: K::V| self.entries@[self.place_of(k)].1@)
    }
}

impl<K: Key, V: View> Table<K, V> {
    /// No key stands twice in the table.
    pub closed spec fn wf(self) -> bool {
        forall|i: int, j: int|
            0 <= i < j < self.entries@.len() ==> self.key_at(i) != self.key_at(j)
    }

    spec fn key_at(self, i: int) -> K::V {
        self.entries@[i].0@
    }

    spec fn holds(self, k: K::V) -> bool {
        exists|i: int| 0 <= i < self.entries@.len() && #[trigger] self.key_at(i) == k
    }

    spec fn place_of(self, k: K::V) -> int {
        choose|i: int| 0 <= i < self.entries@.len() && #[trigger] self.key_at(i) == k
    }

    proof fn place_is_unique(self, i: int)
        requires
            self.wf(),
            0 <= i < self.entries@.len(),
        ensures
            self.holds(self.key_at(i)),
            self.place_of(self.key_at(i)) == i,
    {
        let k = self.key_at(i);
        let j = self.place_of(k);
        assert(0 <= j < self.entries@.len() && self.key_at(j) == k);
        if j < i {
            assert(self.key_at(j) != self.key_at(i));
        } else if i < j {
            assert(self.key_at(i) != self.key_at(j));
        }
    }

    /// The empty table.
    pub fn new() -> (t: Self)
        ensures
            t.wf(),
            t@ == Map::<K::V, V::V>::empty(),
    {
        let t = Table { entries: Vec::new() };
        assert(t@ =~= Map::<K::V, V::V>::empty());
        t
    }

    fn find(&self, key: &K) -> (r: Option<usize>)
        ensures
            match r {
                Some(i) => i < self.entries@.len() && self.key_at(i as int) == key@,
                None => !self.holds(key@),
            },
    {
        let mut i: usize = 0;
        while i < self.entries.len()
            invariant
                i <= self.entries@.len(),
                forall|j: int| 0 <= j < i ==> self.key_at(j) != key@,
            decreases self.entries@.len() - i,
        {
            if self.entries[i].0.same_key(key) {
                return Some(i);
            }
            i += 1;
        }
        None
    }

    /// Whether the table holds a value under `key`.
    pub fn contains(&self, key: &K) -> (r: bool)
        ensures
            r == self@.dom().contains(key@),
    {
        self.find(key).is_some()
    }

    /// The value under `key`, if there is one.
    pub fn get(&self, key: &K) -> (r: Option<&V>)
        requires
            self.wf(),
        ensures
            match r {
                Some(v) => self@.dom().contains(key@) && v@ == self@[key@],
                None => !self@.dom().contains(key@),
            },
    {
        match self.find(key) {
            Some(i) => {
                proof {
                    self.place_is_unique(i as int);
                }
                Some(&self.entries[i].1)
            },
            None => None,
        }
    }

    /// Puts `value` under `key`, in place of what was there.
    pub fn insert(&mut self, key: K, value: V)
        requires
            old(self).wf(),
        ensures
            final(self).wf(),
            final(self)@ == old(self)@.insert(key@, value@),
    {
        let ghost k = key@;
        let ghost v = value@;
        match self.find(&key) {
            Some(i) => {
                self.entries[i] = (key, value);
                proof {
                    assert forall|a: int, b: int|
                        0 <= a < b < self.entries@.len() implies self.key_at(a) != self.key_at(
                        b,
                    ) by {
                        assert(self.key_at(a) == old(self).key_at(a));
                        assert(self.key_at(b) == old(self).key_at(b));
                    }
                    assert forall|q: K::V| self.holds(q) == old(self).holds(q) by {
                        if self.holds(q) {
                            let j = self.place_of(q);
                            assert(old(self).key_at(j) == q);
                        }
                        if old(self).holds(q) {
                            let j = old(self).place_of(q);
                            assert(self.key_at(j) == q);
                        }
                    }
                    assert forall|q: K::V| self.holds(q) implies self.entries@[self.place_of(
                        q,
                    )].1@ == old(self)@.insert(k, v)[q] by {
                        let j = self.place_of(q);
                        assert(old(self).key_at(j) == q);
                        old(self).place_is_unique(j);
                    }
                    assert(self@ =~= old(self)@.insert(k, v));
                }
            },
            None => {
                self.entries.push((key, value));
                proof {
                    let n = old(self).entries@.len() as int;
                    assert forall|a: int, b: int|
                        0 <= a < b < self.entries@.len() implies self.key_at(a) != self.key_at(
                        b,
                    ) by {
                        assert(self.key_at(a) == old(self).key_at(a));
                        if b < n {
                            assert(self.key_at(b) == old(self).key_at(b));
                        }
                    }
                    assert(self.key_at(n) == k);
                    assert forall|q: K::V| self.holds(q) == (q == k || old(self).holds(q)) by {
                        if self.holds(q) {
                            let j = self.place_of(q);
                            if j < n {
                                assert(old(self).key_at(j) == q);
                            }
                        }
                        if old(self).holds(q) {
                            let j = old(self).place_of(q);
                            assert(self.key_at(j) == q);
                        }
                    }
                    assert forall|q: K::V| self.holds(q) implies self.entries@[self.place_of(
                        q,
                    )].1@ == old(self)@.insert(k, v)[q] by {
                        let j = self.place_of(q);
                        self.place_is_unique(j);
                        if j < n {
                            assert(old(self).key_at(j) == q);
                            old(self).place_is_unique(j);
                        }
                    }
                    assert(self@ =~= old(self)@.insert(k, v));
                }
            },
        }
    }

    /// Takes away what is under `key`, if anything.
    pub fn remove(&mut self, key: &K)
        requires
            old(self).wf(),
        ensures
            final(self).wf(),
            final(self)@ == old(self)@.remove(key@),
    {
        let ghost k = key@;
        match self.find(key) {
            Some(i) => {
                let _ = self.entries.remove(i);
                proof {
                    let p = i as int;
                    assert forall|a: int| 0 <= a < self.entries@.len() implies self.key_at(a)
                        == old(self).key_at(if a < p { a } else { a + 1 }) by {}
                    assert forall|a: int, b: int|
                        0 <= a < b < self.entries@.len() implies self.key_at(a) != self.key_at(
                        b,
                    ) by {
                        let a0 = if a < p { a } else { a + 1 };
                        let b0 = if b < p { b } else { b + 1 };
                        assert(old(self).key_at(a0) != old(self).key_at(b0));
                    }
                    assert forall|q: K::V| self.holds(q) == (q != k && old(self).holds(q)) by {
                        if self.holds(q) {
                            let j = self.place_of(q);
                            let j0 = if j < p { j } else { j + 1 };
                            assert(old(self).key_at(j0) == q);
                            if j0 < p {
                                assert(old(self).key_at(j0) != old(self).key_at(p));
                            } else {
                                assert(old(self).key_at(p) != old(self).key_at(j0));
                            }
                        }
                        if q != k && old(self).holds(q) {
                            let j0 = old(self).place_of(q);
                            let j = if j0 < p { j0 } else { j0 - 1 };
                            assert(self.key_at(j) == q);
                        }
                    }
                    assert forall|q: K::V| self.holds(q) implies self.entries@[self.place_of(
                        q,
                    )].1@ == old(self)@[q] by {
                        let j = self.place_of(q);
                        let j0 = if j < p { j } else { j + 1 };
                        assert(old(self).key_at(j0) == q);
                        old(self).place_is_unique(j0);
                    }
                    assert(self@ =~= old(self)@.remove(k));
                }
            },
            None => {
                assert(self@ =~= old(self)@.remove(k));
            },
        }
    }
}

} // verus!
