//! A small keyed store: string keys, one value per key, entries kept in the
//! order in which their keys were first inserted.
use vstd::prelude::*;

verus! {

#[derive(Debug)]
pub struct Table<V> {
    pub entries: Vec<(String, V)>,
}

/// Whether some entry of `s` has key `k`.
pub open spec fn has_key<V>(s: Seq<(String, V)>, k: Seq<char>) -> bool {
    exists|i: int| 0 <= i < s.len() && (#[trigger] s[i]).0@ == k
}

/// Keys are pairwise distinct.
pub open spec fn keys_unique<V>(s: Seq<(String, V)>) -> bool {
    forall|i: int, j: int| 0 <= i < s.len() && 0 <= j < s.len() && i != j ==> (#[trigger] s[i]).0@ != (#[trigger] s[j]).0@
}

impl<V> Table<V> {
    pub open spec fn wf(&self) -> bool {
        keys_unique(self.entries@)
    }

    /// Position of the entry with key `k` (meaningful when the key is present).
    pub open spec fn index_spec(&self, k: Seq<char>) -> int {
        choose|i: int| 0 <= i < self.entries@.len() && (#[trigger] self.entries@[i]).0@ == k
    }

    pub open spec fn view(&self) -> Map<Seq<char>, V> {
        Map::new(|k: Seq<char>| has_key(self.entries@, k), |k: Seq<char>| self.entries@[self.index_spec(k)].1)
    }

    /// The values in insertion order.
    pub open spec fn values(&self) -> Seq<V> {
        self.entries@.map_values(|e: (String, V)| e.1)
    }

    pub proof fn lemma_index(&self, i: int)
        requires
            self.wf(),
            0 <= i < self.entries@.len(),
        ensures
            self@.contains_key(self.entries@[i].0@),
            self.index_spec(self.entries@[i].0@) == i,
            self@[self.entries@[i].0@] == self.entries@[i].1,
    {
        let k = self.entries@[i].0@;
        assert(has_key(self.entries@, k));
        let j = self.index_spec(k);
        assert(self.entries@[j].0@ == k);
    }

    pub fn new() -> (r: Self)
        ensures
            r.wf(),
            r@ == Map::<Seq<char>, V>::empty(),
            r.entries@.len() == 0,
    {
        let r = Table { entries: Vec::new() };
        assert(r@ =~= Map::<Seq<char>, V>::empty());
        r
    }

    pub fn len(&self) -> (r: usize)
        ensures
            r == self.entries@.len(),
    {
        self.entries.len()
    }

    /// The position of the entry with the given key, if there is one.
    pub fn find(&self, key: &String) -> (r: Option<usize>)
        requires
            self.wf(),
        ensures
            r is None <==> !self@.contains_key(key@),
            r matches Some(i) ==> i < self.entries@.len() && self.entries@[i as int].0@ == key@
                && self.index_spec(key@) == i && self@[key@] == self.entries@[i as int].1,
    {
        let mut i: usize = 0;
        while i < self.entries.len()
            invariant
                self.wf(),
                i <= self.entries@.len(),
                forall|j: int| 0 <= j < i ==> (#[trigger] self.entries@[j]).0@ != key@,
            decreases self.entries@.len() - i,
        {
            if self.entries[i].0 == *key {
                proof { self.lemma_index(i as int); }
                return Some(i);
            }
            i = i + 1;
        }
        None
    }

    pub fn contains(&self, key: &String) -> (r: bool)
        requires
            self.wf(),
        ensures
            r == self@.contains_key(key@),
    {
        self.find(key).is_some()
    }

    pub fn get(&self, key: &String) -> (r: Option<&V>)
        requires
            self.wf(),
        ensures
            r is None <==> !self@.contains_key(key@),
            r matches Some(v) ==> *v == self@[key@],
    {
        match self.find(key) {
            Some(i) => Some(&self.entries[i].1),
            None => None,
        }
    }

    pub fn value_at(&self, i: usize) -> (r: &V)
        requires
            i < self.entries@.len(),
        ensures
            *r == self.entries@[i as int].1,
    {
        &self.entries[i].1
    }

    /// Replaces the value at position `i`, keeping its key and position.
    pub fn set_at(&mut self, i: usize, value: V)
        requires
            old(self).wf(),
            i < old(self).entries@.len(),
        ensures
            final(self).wf(),
            final(self).entries@ == old(self).entries@.update(
                i as int,
                (old(self).entries@[i as int].0, value),
            ),
            final(self)@ == old(self)@.insert(old(self).entries@[i as int].0@, value),
    {
        let ghost k = self.entries@[i as int].0@;
        let key = self.entries[i].0.clone();
        self.entries.set(i, (key, value));
        proof {
            let o = old(self);
            assert(keys_unique(self.entries@));
            assert forall|k2: Seq<char>| has_key(self.entries@, k2) == has_key(o.entries@, k2) by {
                if has_key(o.entries@, k2) {
                    let j = choose|j: int| 0 <= j < o.entries@.len() && (#[trigger] o.entries@[j]).0@ == k2;
                    assert(self.entries@[j].0@ == k2);
                }
                if has_key(self.entries@, k2) {
                    let j = choose|j: int| 0 <= j < self.entries@.len() && (#[trigger] self.entries@[j]).0@ == k2;
                    assert(o.entries@[j].0@ == k2);
                }
            }
            assert forall|k2: Seq<char>| #[trigger] self@.contains_key(k2) implies self@[k2] == o@.insert(k, value)[k2] by {
                let j = self.index_spec(k2);
                self.lemma_index(j);
                if k2 != k {
                    o.lemma_index(j);
                }
            }
            assert(self@ =~= o@.insert(k, value));
        }
    }

    /// Sets the value of `key`: in place when the key is present, else as a new
    /// last entry.
    pub fn insert(&mut self, key: String, value: V)
        requires
            old(self).wf(),
        ensures
            final(self).wf(),
            final(self)@ == old(self)@.insert(key@, value),
            old(self)@.contains_key(key@) ==> final(self).entries@ == old(self).entries@.update(
                old(self).index_spec(key@),
                (old(self).entries@[old(self).index_spec(key@)].0, value),
            ),
            !old(self)@.contains_key(key@) ==> final(self).entries@ == old(self).entries@.push((key, value)),
    {
        match self.find(&key) {
            Some(i) => {
                self.set_at(i, value);
            },
            None => {
                let ghost k = key@;
                self.entries.push((key, value));
                proof {
                    let o = old(self);
                    let n = o.entries@.len() as int;
                    assert(self.entries@[n].0@ == k);
                    assert forall|i: int, j: int|
                        0 <= i < self.entries@.len() && 0 <= j < self.entries@.len() && i != j
                        implies (#[trigger] self.entries@[i]).0@ != (#[trigger] self.entries@[j]).0@ by {
                        if i == n {
                            assert(o.entries@[j] == self.entries@[j]);
                        } else if j == n {
                            assert(o.entries@[i] == self.entries@[i]);
                        } else {
                            assert(o.entries@[i] == self.entries@[i]);
                            assert(o.entries@[j] == self.entries@[j]);
                        }
                    }
                    assert forall|k2: Seq<char>| has_key(self.entries@, k2) == (has_key(o.entries@, k2) || k2 == k) by {
                        if has_key(o.entries@, k2) {
                            let j = choose|j: int| 0 <= j < o.entries@.len() && (#[trigger] o.entries@[j]).0@ == k2;
                            assert(self.entries@[j].0@ == k2);
                        }
                        if has_key(self.entries@, k2) && k2 != k {
                            let j = choose|j: int| 0 <= j < self.entries@.len() && (#[trigger] self.entries@[j]).0@ == k2;
                            assert(o.entries@[j].0@ == k2);
                        }
                    }
                    assert forall|k2: Seq<char>| #[trigger] self@.contains_key(k2) implies self@[k2] == o@.insert(k, value)[k2] by {
                        let j = self.index_spec(k2);
                        self.lemma_index(j);
                        if k2 != k {
                            o.lemma_index(j);
                        }
                    }
                    assert(self@ =~= o@.insert(k, value));
                }
            },
        }
    }
}

} // verus!
