//! A small association table: the store behind every map of the ledger.

use vstd::prelude::*;

verus! {

/// A key that can be compared at run time, with the comparison deciding
/// equality of the values.
pub trait Key: Sized + Copy {
    fn same(&self, other: &Self) -> (r: bool)
        ensures
            r == (*self == *other),
    ;
}

/// A finite map from keys to values, kept as two parallel vectors in which
/// no key occurs twice.
pub struct Table<K, T> {
    keys: Vec<K>,
    vals: Vec<T>,
}

impl<K: Key, T: Copy> View for Table<K, T> {
    type V = Map<K, T>;

    closed spec fn view(&self) -> Map<K, T> {
        Map::new(
            |k: K| self.keys@.contains(k),
            |k: K| self.vals@[choose|i: int| 0 <= i < self.keys@.len() && self.keys@[i] == k],
        )
    }
}

impl<K: Key, T: Copy> Table<K, T> {
    /// The two vectors run in parallel and hold each key once.
    pub closed spec fn wf(&self) -> bool {
        &&& self.keys@.len() == self.vals@.len()
        &&& self.keys@.no_duplicates()
    }

    proof fn lemma_entry(&self, i: int)
        requires
            self.wf(),
            0 <= i < self.keys@.len(),
        ensures
            self@.contains_key(self.keys@[i]),
            self@[self.keys@[i]] == self.vals@[i],
    {
        let k = self.keys@[i];
        let j = choose|j: int| 0 <= j < self.keys@.len() && self.keys@[j] == k;
        assert(j == i);
    }

    pub fn new() -> (t: Self)
        ensures
            t.wf(),
            t@ == Map::<K, T>::empty(),
    {
        let t = Table { keys: Vec::new(), vals: Vec::new() };
        assert(t@ =~= Map::<K, T>::empty());
        t
    }

    fn find(&self, key: &K) -> (r: Option<usize>)
        requires
            self.wf(),
        ensures
            match r {
                Some(i) => i < self.keys@.len() && self.keys@[i as int] == *key,
                None => !self.keys@.contains(*key),
            },
    {
        let mut i: usize = 0;
        while i < self.keys.len()
            invariant
                i <= self.keys@.len(),
                forall|j: int| 0 <= j < i ==> self.keys@[j] != *key,
            decreases self.keys@.len() - i,
        {
            if self.keys[i].same(key) {
                return Some(i);
            }
            i += 1;
        }
        None
    }

    /// The value stored under `key`, if there is one.
    pub fn get(&self, key: &K) -> (r: Option<T>)
        requires
            self.wf(),
        ensures
            r == (if self@.contains_key(*key) {
                Some(self@[*key])
            } else {
                None
            }),
    {
        match self.find(key) {
            Some(i) => {
                proof {
                    self.lemma_entry(i as int);
                }
                Some(self.vals[i])
            },
            None => None,
        }
    }

    /// Stores `val` under `key`, replacing what was there.
    pub fn set(&mut self, key: K, val: T)
        requires
            old(self).wf(),
        ensures
            final(self).wf(),
            final(self)@ == old(self)@.insert(key, val),
    {
        let ghost before = *self;
        match self.find(&key) {
            Some(i) => {
                self.vals[i] = val;
                proof {
                    assert(self.keys@ == before.keys@);
                    assert forall|k: K| #[trigger] self@.contains_key(k) implies self@[k]
                        == before@.insert(key, val)[k] by {
                        let j = choose|j: int| 0 <= j < self.keys@.len() && self.keys@[j] == k;
                        before.lemma_entry(j);
                        self.lemma_entry(j);
                    }
                    assert(self@ =~= before@.insert(key, val));
                }
            },
            None => {
                self.keys.push(key);
                self.vals.push(val);
                proof {
                    let n = before.keys@.len() as int;
                    assert(self.keys@ == before.keys@.push(key));
                    assert(self.vals@ == before.vals@.push(val));
                    assert forall|k: K| self.keys@.contains(k) <==> (k == key
                        || before.keys@.contains(k)) by {
                        if before.keys@.contains(k) {
                            let j = choose|j: int| 0 <= j < n && before.keys@[j] == k;
                            assert(self.keys@[j] == k);
                        }
                        if k == key {
                            assert(self.keys@[n] == k);
                        }
                    }
                    assert forall|k: K| #[trigger] self@.contains_key(k) implies self@[k]
                        == before@.insert(key, val)[k] by {
                        let j = choose|j: int| 0 <= j < self.keys@.len() && self.keys@[j] == k;
                        self.lemma_entry(j);
                        if j < n {
                            before.lemma_entry(j);
                        }
                    }
                    assert(self@ =~= before@.insert(key, val));
                }
            },
        }
    }

    /// Drops `key` and its value, if the table holds it.
    pub fn remove(&mut self, key: &K)
        requires
            old(self).wf(),
        ensures
            final(self).wf(),
            final(self)@ == old(self)@.remove(*key),
    {
        let ghost before = *self;
        match self.find(key) {
            Some(i) => {
                self.keys.remove(i);
                self.vals.remove(i);
                proof {
                    let n = before.keys@.len() as int;
                    assert(self.keys@ == before.keys@.remove(i as int));
                    assert(self.vals@ == before.vals@.remove(i as int));
                    assert forall|a: int, b: int|
                        0 <= a < self.keys@.len() && 0 <= b < self.keys@.len() && a
                            != b implies self.keys@[a] != self.keys@[b] by {
                        let a0 = if a < i { a } else { a + 1 };
                        let b0 = if b < i { b } else { b + 1 };
                        assert(self.keys@[a] == before.keys@[a0]);
                        assert(self.keys@[b] == before.keys@[b0]);
                    }
                    assert forall|k: K| self.keys@.contains(k) <==> (k != *key
                        && before.keys@.contains(k)) by {
                        if self.keys@.contains(k) {
                            let j = choose|j: int| 0 <= j < n - 1 && self.keys@[j] == k;
                            let j0 = if j < i { j } else { j + 1 };
                            assert(before.keys@[j0] == k);
                        }
                        if k != *key && before.keys@.contains(k) {
                            let j = choose|j: int| 0 <= j < n && before.keys@[j] == k;
                            let j1 = if j < i { j } else { j - 1 };
                            assert(self.keys@[j1] == k);
                        }
                    }
                    assert forall|k: K| #[trigger] self@.contains_key(k) implies self@[k]
                        == before@.remove(*key)[k] by {
                        let j = choose|j: int| 0 <= j < self.keys@.len() && self.keys@[j] == k;
                        let j0 = if j < i { j } else { j + 1 };
                        self.lemma_entry(j);
                        before.lemma_entry(j0);
                    }
                    assert(self@ =~= before@.remove(*key));
                }
            },
            None => {
                assert(self@ =~= before@.remove(*key));
            },
        }
    }
}

} // verus!
