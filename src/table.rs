//! A small key-value table over a vector, viewed as a finite map.
use vstd::prelude::*;

verus! {

/// A key that can be compared in executable code.
pub trait TableKey: Copy + Sized {
    fn same_key(&self, other: &Self) -> (r: bool)
        ensures
            r == (*self == *other),
    ;
}

impl TableKey for u64 {
    fn same_key(&self, other: &u64) -> (r: bool) {
        *self == *other
    }
}

/// Entries with distinct keys; `map` is what they hold.
#[verifier::reject_recursive_types(K)]
pub struct Table<K, V> {
    entries: Vec<(K, V)>,
    map: Ghost<Map<K, V>>,
}

impl<K: TableKey, V: Copy> Table<K, V> {
    pub closed spec fn view(&self) -> Map<K, V> {
        self.map@
    }

    pub closed spec fn wf(&self) -> bool {
        &&& forall|i: int|
            0 <= i < self.entries@.len() ==> #[trigger] self.map@.contains_key(self.entries@[i].0)
                && self.map@[self.entries@[i].0] == self.entries@[i].1
        &&& forall|k: K| #[trigger]
            self.map@.contains_key(k) ==> exists|i: int|
                0 <= i < self.entries@.len() && #[trigger] self.entries@[i].0 == k
        &&& forall|i: int, j: int|
            0 <= i < j < self.entries@.len() ==> #[trigger] self.entries@[i].0
                != #[trigger] self.entries@[j].0
    }

    pub fn new() -> (t: Self)
        ensures
            t.wf(),
            t@ == Map::<K, V>::empty(),
    {
        Table { entries: Vec::new(), map: Ghost(Map::empty()) }
    }

    /// The position of `k`, if it is held.
    fn position(&self, k: &K) -> (r: Option<usize>)
        requires
            self.wf(),
        ensures
            match r {
                Some(i) => i < self.entries@.len() && self.entries@[i as int].0 == *k,
                None => !self@.contains_key(*k),
            },
    {
        let mut i: usize = 0;
        while i < self.entries.len()
            invariant
                self.wf(),
                i <= self.entries@.len(),
                forall|j: int| 0 <= j < i ==> self.entries@[j].0 != *k,
            decreases self.entries@.len() - i,
        {
            if self.entries[i].0.same_key(k) {
                return Some(i);
            }
            i = i + 1;
        }
        None
    }

    pub fn get(&self, k: &K) -> (r: Option<V>)
        requires
            self.wf(),
        ensures
            r == (if self@.contains_key(*k) {
                Some(self@[*k])
            } else {
                None
            }),
    {
        match self.position(k) {
            Some(i) => Some(self.entries[i].1),
            None => None,
        }
    }

    pub fn contains(&self, k: &K) -> (r: bool)
        requires
            self.wf(),
        ensures
            r == self@.contains_key(*k),
    {
        self.position(k).is_some()
    }

    pub fn insert(&mut self, k: K, v: V)
        requires
            old(self).wf(),
        ensures
            final(self).wf(),
            final(self)@ == old(self)@.insert(k, v),
    {
        match self.position(&k) {
            Some(i) => {
                let ghost prev = self.entries@;
                self.entries.set(i, (k, v));
                self.map = Ghost(self.map@.insert(k, v));
                assert forall|a: int|
                    0 <= a < self.entries@.len() implies #[trigger] self.map@.contains_key(
                    self.entries@[a].0) && self.map@[self.entries@[a].0] == self.entries@[a].1 by {
                    if a != i {
                        assert(self.entries@[a] == prev[a]);
                        assert(prev[a].0 != prev[i as int].0);
                    }
                }
                assert forall|a: int, b: int|
                    0 <= a < b < self.entries@.len() implies #[trigger] self.entries@[a].0
                    != #[trigger] self.entries@[b].0 by {
                    assert(self.entries@[a].0 == prev[a].0);
                    assert(self.entries@[b].0 == prev[b].0);
                }
                assert forall|q: K| #[trigger] self.map@.contains_key(q) implies exists|j: int|
                    0 <= j < self.entries@.len() && #[trigger] self.entries@[j].0 == q by {
                    if q != k {
                        let j = choose|j: int|
                            0 <= j < old(self).entries@.len() && #[trigger] old(self).entries@[j].0
                                == q;
                        assert(self.entries@[j].0 == q);
                    } else {
                        assert(self.entries@[i as int].0 == q);
                    }
                }
            },
            None => {
                self.entries.push((k, v));
                self.map = Ghost(self.map@.insert(k, v));
                let ghost n = self.entries@.len() - 1;
                assert(self.entries@[n].0 == k);
                assert forall|q: K| #[trigger] self.map@.contains_key(q) implies exists|j: int|
                    0 <= j < self.entries@.len() && #[trigger] self.entries@[j].0 == q by {
                    if q != k {
                        let j = choose|j: int|
                            0 <= j < old(self).entries@.len() && #[trigger] old(self).entries@[j].0
                                == q;
                        assert(self.entries@[j].0 == q);
                    }
                }
                assert forall|a: int, b: int|
                    0 <= a < b < self.entries@.len() implies #[trigger] self.entries@[a].0
                    != #[trigger] self.entries@[b].0 by {
                    if b == n {
                        assert(old(self).map@.contains_key(old(self).entries@[a].0));
                    }
                }
            },
        }
    }

    pub fn remove(&mut self, k: &K)
        requires
            old(self).wf(),
        ensures
            final(self).wf(),
            final(self)@ == old(self)@.remove(*k),
    {
        match self.position(k) {
            Some(i) => {
                let ghost prev = self.entries@;
                self.entries.remove(i);
                self.map = Ghost(self.map@.remove(*k));
                assert forall|a: int|
                    0 <= a < self.entries@.len() implies #[trigger] self.map@.contains_key(
                    self.entries@[a].0) && self.map@[self.entries@[a].0] == self.entries@[a].1 by {
                    if a < i {
                        assert(self.entries@[a] == prev[a]);
                        assert(prev[a].0 != prev[i as int].0);
                        assert(old(self).map@.contains_key(old(self).entries@[a].0));
                    } else {
                        assert(self.entries@[a] == prev[a + 1]);
                        assert(prev[a + 1].0 != prev[i as int].0);
                        assert(old(self).map@.contains_key(old(self).entries@[a + 1].0));
                    }
                }
                assert forall|q: K| #[trigger] self.map@.contains_key(q) implies exists|j: int|
                    0 <= j < self.entries@.len() && #[trigger] self.entries@[j].0 == q by {
                    let j = choose|j: int|
                        0 <= j < prev.len() && #[trigger] prev[j].0 == q;
                    if j < i {
                        assert(self.entries@[j].0 == q);
                    } else {
                        assert(self.entries@[j - 1].0 == q);
                    }
                }
                assert forall|a: int, b: int|
                    0 <= a < b < self.entries@.len() implies #[trigger] self.entries@[a].0
                    != #[trigger] self.entries@[b].0 by {
                    let a0 = if a < i { a } else { a + 1 };
                    let b0 = if b < i { b } else { b + 1 };
                    assert(self.entries@[a] == prev[a0]);
                    assert(self.entries@[b] == prev[b0]);
                }
            },
            None => {
                assert(self.map@.remove(*k) =~= self.map@);
            },
        }
    }

    /// An entry-by-entry copy.
    pub fn copy(&self) -> (r: Self)
        requires
            self.wf(),
        ensures
            r.wf(),
            r@ == self@,
    {
        let mut entries: Vec<(K, V)> = Vec::new();
        let mut i: usize = 0;
        while i < self.entries.len()
            invariant
                i <= self.entries@.len(),
                entries@ == self.entries@.subrange(0, i as int),
            decreases self.entries@.len() - i,
        {
            entries.push(self.entries[i]);
            i = i + 1;
        }
        assert(entries@ =~= self.entries@);
        let r = Table { entries, map: Ghost(self.map@) };
        assert(r.entries@ == self.entries@);
        r
    }
}

} // verus!
