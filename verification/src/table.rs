//! An insertion-ordered table from string keys to values.

use vstd::prelude::*;

verus! {

/// A map from string keys to values that remembers the order in which the keys
/// were first inserted. No key occurs twice.
#[derive(Debug)]
pub struct Table<V: View> {
    entries: Vec<(String, V)>,
}

/// The keys of a list of entries, in order.
pub open spec fn keys_of<V: View>(entries: Seq<(String, V)>) -> Seq<Seq<char>> {
    Seq::new(entries.len(), |i: int| entries[i].0@)
}

/// The values of a list of entries, in order.
pub open spec fn values_of<V: View>(entries: Seq<(String, V)>) -> Seq<V::V> {
    Seq::new(entries.len(), |i: int| entries[i].1@)
}

impl<V: View + Clone> Clone for Table<V> {
    /// A copy with the same keys in the same order, each with a clone of its
    /// value.
    fn clone(&self) -> (res: Self)
        ensures
            res.keys() == self.keys(),
            res.items().len() == self.items().len(),
            forall|i: int|
                0 <= i < self.items().len() ==> cloned::<V>(self.items()[i], res.items()[i]),
            res.wf(),
    {
        proof {
            use_type_invariant(self);
        }
        let mut entries: Vec<(String, V)> = Vec::new();
        let mut i: usize = 0;
        while i < self.entries.len()
            invariant
                i <= self.entries@.len(),
                entries@.len() == i,
                forall|j: int| 0 <= j < i ==> entries@[j].0@ == self.entries@[j].0@,
                forall|j: int| 0 <= j < i ==> cloned::<V>(self.entries@[j].1, entries@[j].1),
            decreases self.entries@.len() - i,
        {
            entries.push((self.entries[i].0.clone(), self.entries[i].1.clone()));
            i = i + 1;
        }
        assert(keys_of(entries@) =~= self.keys());
        Table { entries }
    }
}

impl<V: View> View for Table<V> {
    type V = Map<Seq<char>, V::V>;

    /// The table as a map from a key's characters to the value's view.
    open spec fn view(&self) -> Map<Seq<char>, V::V> {
        Map::new(
            |k: Seq<char>| self.keys().contains(k),
            |k: Seq<char>| self.values()[self.keys().index_of(k)],
        )
    }
}

impl<V: View> Table<V> {
    /// The keys in insertion order.
    pub closed spec fn keys(&self) -> Seq<Seq<char>> {
        keys_of(self.entries@)
    }

    /// The stored values themselves, each at the index of its key.
    pub closed spec fn items(&self) -> Seq<V> {
        Seq::new(self.entries@.len(), |i: int| self.entries@[i].1)
    }

    /// The views of the values, each at the index of its key.
    pub closed spec fn values(&self) -> Seq<V::V> {
        values_of(self.entries@)
    }

    /// The values are the views of the items.
    pub proof fn lemma_values_of_items(&self)
        ensures
            self.values().len() == self.items().len(),
            forall|i: int| 0 <= i < self.items().len() ==> self.values()[i] == self.items()[i]@,
    {
    }

    /// Every key occurs once.
    #[verifier::type_invariant]
    pub closed spec fn wf(&self) -> bool {
        self.keys().no_duplicates()
    }

    /// In a well-formed table the key at index `i` maps to the value at `i`.
    pub proof fn lemma_lookup(&self, i: int)
        requires
            self.wf(),
            0 <= i < self.keys().len(),
        ensures
            self.keys().len() == self.values().len(),
            self@.contains_key(self.keys()[i]),
            self@[self.keys()[i]] == self.values()[i],
    {
        let k = self.keys()[i];
        assert(self.keys().contains(k));
        let j = self.keys().index_of(k);
        assert(0 <= j < self.keys().len() && self.keys()[j] == k);
        assert(j == i);
    }

    /// In a well-formed table no key occurs twice, and every key has a value.
    pub proof fn lemma_keys_distinct(&self)
        requires
            self.wf(),
        ensures
            self.keys().no_duplicates(),
            self.keys().len() == self.values().len(),
    {
    }

    /// An empty table.
    pub fn new() -> (t: Self)
        ensures
            t.keys() == Seq::<Seq<char>>::empty(),
            t.values() == Seq::<V::V>::empty(),
            t@ == Map::<Seq<char>, V::V>::empty(),
            t.wf(),
    {
        let t = Table { entries: Vec::new() };
        assert(t.keys() =~= Seq::<Seq<char>>::empty());
        assert(t.values() =~= Seq::<V::V>::empty());
        assert(t@ =~= Map::<Seq<char>, V::V>::empty());
        t
    }

    /// The number of keys.
    pub fn len(&self) -> (n: usize)
        ensures
            n == self.keys().len(),
            n == self.values().len(),
            self.wf(),
    {
        proof {
            use_type_invariant(self);
        }
        self.entries.len()
    }

    /// The key at index `i`.
    pub fn key_at(&self, i: usize) -> (k: &String)
        requires
            i < self.keys().len(),
        ensures
            k@ == self.keys()[i as int],
            self@.contains_key(k@),
    {
        proof {
            use_type_invariant(self);
            self.lemma_lookup(i as int);
        }
        &self.entries[i].0
    }

    /// The value at index `i`.
    pub fn value_at(&self, i: usize) -> (v: &V)
        requires
            i < self.keys().len(),
        ensures
            v@ == self.values()[i as int],
            v@ == self@[self.keys()[i as int]],
    {
        proof {
            use_type_invariant(self);
            self.lemma_lookup(i as int);
        }
        &self.entries[i].1
    }

    /// The index of `key`, if the table holds it.
    pub fn position(&self, key: &str) -> (r: Option<usize>)
        ensures
            match r {
                Some(i) => i < self.keys().len() && self.keys()[i as int] == key@,
                None => !self.keys().contains(key@),
            },
            r is Some <==> self@.contains_key(key@),
    {
        let mut i: usize = 0;
        while i < self.entries.len()
            invariant
                i <= self.entries@.len(),
                forall|j: int| 0 <= j < i ==> self.keys()[j] != key@,
            decreases self.entries@.len() - i,
        {
            if self.entries[i].0.as_str().eq(key) {
                assert(self.keys()[i as int] == key@);
                assert(self.keys().contains(key@));
                return Some(i);
            }
            i = i + 1;
        }
        None
    }

    /// The value stored under `key`, if any.
    pub fn get(&self, key: &str) -> (r: Option<&V>)
        ensures
            match r {
                Some(v) => self@.contains_key(key@) && self@[key@] == v@,
                None => !self@.contains_key(key@),
            },
    {
        match self.position(key) {
            Some(i) => {
                proof {
                    use_type_invariant(self);
                    self.lemma_lookup(i as int);
                }
                Some(&self.entries[i].1)
            },
            None => None,
        }
    }

    /// Whether the table holds `key`.
    pub fn contains_key(&self, key: &str) -> (r: bool)
        ensures
            r == self@.contains_key(key@),
    {
        self.position(key).is_some()
    }

    /// Stores `value` under `key`. A key that the table already holds keeps
    /// its place and gets the new value; a new key goes to the end.
    pub fn insert(&mut self, key: String, value: V)
        ensures
            final(self)@ == old(self)@.insert(key@, value@),
            old(self).keys().contains(key@) ==> final(self).keys() == old(self).keys()
                && final(self).values() == old(self).values().update(
                old(self).keys().index_of(key@),
                value@,
            ),
            !old(self).keys().contains(key@) ==> final(self).keys() == old(self).keys().push(key@)
                && final(self).values() == old(self).values().push(value@),
            final(self).wf(),
    {
        proof {
            use_type_invariant(&*self);
        }
        let ghost before = *self;
        let found = self.position(key.as_str());
        let mut entries: Vec<(String, V)> = Vec::new();
        core::mem::swap(&mut self.entries, &mut entries);
        match found {
            Some(i) => {
                let ghost kv = key@;
                let ghost vv = value@;
                entries.set(i, (key, value));
                assert(keys_of(entries@) =~= before.keys());
                core::mem::swap(&mut self.entries, &mut entries);
                proof {
                    assert(self.keys() =~= before.keys());
                    assert(before.keys().index_of(kv) == i as int);
                    assert(self.values() =~= before.values().update(i as int, vv));
                    assert(self@ =~= before@.insert(kv, vv)) by {
                        assert forall|k: Seq<char>| self.keys().contains(k) implies #[trigger] self@[k]
                            == before@.insert(kv, vv)[k] by {
                            let j = self.keys().index_of(k);
                            if k != kv {
                                assert(j != i as int);
                            }
                        }
                    }
                }
            },
            None => {
                let ghost kv = key@;
                let ghost vv = value@;
                entries.push((key, value));
                assert(keys_of(entries@) =~= before.keys().push(kv));
                core::mem::swap(&mut self.entries, &mut entries);
                proof {
                    assert(self.keys() =~= before.keys().push(kv));
                    assert(self.values() =~= before.values().push(vv));
                    let n = before.keys().len() as int;
                    assert(self.keys()[n] == kv);
                    assert(self@ =~= before@.insert(kv, vv)) by {
                        assert forall|k: Seq<char>| self.keys().contains(k) <==> (k == kv
                            || before.keys().contains(k)) by {
                            if before.keys().contains(k) {
                                let j = before.keys().index_of(k);
                                assert(self.keys()[j] == k);
                            }
                        }
                        assert forall|k: Seq<char>| self.keys().contains(k) implies #[trigger] self@[k]
                            == before@.insert(kv, vv)[k] by {
                            let j = self.keys().index_of(k);
                            if k != kv {
                                assert(j != n);
                                assert(before.keys()[j] == k);
                                assert(before.keys().index_of(k) == j);
                            } else {
                                assert(j == n);
                            }
                        }
                    }
                }
            },
        }
    }
}

} // verus!
