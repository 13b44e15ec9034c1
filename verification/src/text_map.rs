//! A small map keyed by text that keeps its keys in the order in which they
//! were first inserted.

use vstd::prelude::*;
use crate::text::same_text;

verus! {

/// A map from text to values. No key occurs twice; a key that is inserted
/// again keeps its place and takes the new value.
#[derive(Debug)]
pub struct TextMap<V> {
    entries: Vec<(String, V)>,
}

/// The keys of a sequence of entries, as texts.
pub open spec fn entry_keys<V>(entries: Seq<(String, V)>) -> Seq<Seq<char>> {
    entries.map_values(|e: (String, V)| e.0@)
}

/// The values of a sequence of entries.
pub open spec fn entry_values<V>(entries: Seq<(String, V)>) -> Seq<V> {
    entries.map_values(|e: (String, V)| e.1)
}

impl<V> View for TextMap<V> {
    type V = Map<Seq<char>, V>;

    closed spec fn view(&self) -> Map<Seq<char>, V> {
        Map::new(
            |k: Seq<char>| entry_keys(self.entries@).contains(k),
            |k: Seq<char>| self.entries@[entry_keys(self.entries@).index_of(k)].1,
        )
    }
}

impl<V> TextMap<V> {
    #[verifier::type_invariant]
    spec fn well_formed(self) -> bool {
        entry_keys(self.entries@).no_duplicates()
    }

    /// The keys in the order of their first insertion.
    pub closed spec fn key_order(&self) -> Seq<Seq<char>> {
        entry_keys(self.entries@)
    }

    /// The values in the order of their keys.
    pub closed spec fn value_order(&self) -> Seq<V> {
        entry_values(self.entries@)
    }

    /// The empty map.
    pub fn new() -> (m: Self)
        ensures
            m@ == Map::<Seq<char>, V>::empty(),
            m.key_order() == Seq::<Seq<char>>::empty(),
    {
        let m = TextMap { entries: Vec::new() };
        assert(m@ =~= Map::<Seq<char>, V>::empty());
        assert(m.key_order() =~= Seq::<Seq<char>>::empty());
        m
    }

    /// The number of keys. The ordered keys are distinct and make up the
    /// domain of the map.
    pub fn len(&self) -> (n: usize)
        ensures
            n == self.key_order().len(),
            n == self.value_order().len(),
            n == self@.dom().len(),
            self.key_order().no_duplicates(),
            self@.dom() == self.key_order().to_set(),
    {
        proof {
            use_type_invariant(self);
            self.key_order().unique_seq_to_set();
            assert(self@.dom() =~= self.key_order().to_set());
        }
        self.entries.len()
    }

    /// Whether the map holds no key.
    pub fn is_empty(&self) -> (b: bool)
        ensures
            b == (self.key_order().len() == 0),
            b == (self@.dom() =~= Set::<Seq<char>>::empty()),
    {
        proof {
            use_type_invariant(self);
            let ks = entry_keys(self.entries@);
            if ks.len() > 0 {
                assert(ks.contains(ks[0]));
                assert(self@.dom().contains(ks[0]));
            }
        }
        self.entries.len() == 0
    }

    /// The place of `key` among the keys, if it is one.
    fn find(&self, key: &str) -> (r: Option<usize>)
        ensures
            match r {
                Some(i) => i < self.entries@.len() && self.entries@[i as int].0@ == key@,
                None => !entry_keys(self.entries@).contains(key@),
            },
    {
        let mut i: usize = 0;
        while i < self.entries.len()
            invariant
                i <= self.entries@.len(),
                forall|j: int| 0 <= j < i ==> self.entries@[j].0@ != key@,
            decreases self.entries@.len() - i,
        {
            if same_text(self.entries[i].0.as_str(), key) {
                return Some(i);
            }
            i = i + 1;
        }
        None
    }

    /// Whether `key` is in the map.
    pub fn contains_key(&self, key: &str) -> (b: bool)
        ensures
            b == self@.contains_key(key@),
    {
        let found = self.find(key);
        proof {
            if let Some(i) = found {
                assert(entry_keys(self.entries@)[i as int] == key@);
            }
        }
        found.is_some()
    }

    /// The value under `key`, if there is one.
    pub fn get(&self, key: &str) -> (r: Option<&V>)
        ensures
            match r {
                Some(v) => self@.contains_key(key@) && *v == self@[key@],
                None => !self@.contains_key(key@),
            },
    {
        match self.find(key) {
            Some(i) => {
                proof {
                    use_type_invariant(self);
                    let ks = entry_keys(self.entries@);
                    assert(ks[i as int] == key@);
                    let j = ks.index_of(key@);
                    assert(ks[j] == key@);
                }
                Some(&self.entries[i].1)
            },
            None => None,
        }
    }

    /// Puts `value` under `key`. A key that is already there keeps its place.
    pub fn insert(&mut self, key: String, value: V)
        ensures
            final(self)@ == old(self)@.insert(key@, value),
            final(self).key_order() == if old(self)@.contains_key(key@) {
                old(self).key_order()
            } else {
                old(self).key_order().push(key@)
            },
    {
        proof {
            use_type_invariant(&*self);
        }
        let ghost before = *self;
        let ghost ks = entry_keys(self.entries@);
        match self.find(key.as_str()) {
            Some(i) => {
                proof {
                    assert(ks[i as int] == key@);
                    assert(entry_keys(before.entries@.update(i as int, (key, value))) =~= ks);
                }
                let mut entries: Vec<(String, V)> = Vec::new();
                core::mem::swap(&mut entries, &mut self.entries);
                entries[i] = (key, value);
                assert(entries@ == before.entries@.update(i as int, (key, value)));
                self.entries = entries;
                proof {
                    assert forall|k: Seq<char>| self@.contains_key(k) implies #[trigger] self@[k]
                        == before@.insert(key@, value)[k] by {
                        let j = ks.index_of(k);
                        assert(ks[j] == k);
                    }
                    assert(self@ =~= before@.insert(key@, value));
                }
            },
            None => {
                let ghost ks2 = ks.push(key@);
                proof {
                    assert(entry_keys(before.entries@.push((key, value))) =~= ks2);
                }
                let mut entries: Vec<(String, V)> = Vec::new();
                core::mem::swap(&mut entries, &mut self.entries);
                entries.push((key, value));
                self.entries = entries;
                proof {
                    assert forall|k: Seq<char>| ks2.contains(k) <==> (ks.contains(k) || k
                        == key@) by {
                        if ks.contains(k) {
                            let j = ks.index_of(k);
                            assert(ks2[j] == k);
                        }
                        if k == key@ {
                            assert(ks2[ks.len() as int] == k);
                        }
                    }
                    assert forall|k: Seq<char>| self@.contains_key(k) implies #[trigger] self@[k]
                        == before@.insert(key@, value)[k] by {
                        let j2 = ks2.index_of(k);
                        assert(ks2[j2] == k);
                        if k != key@ {
                            let j = ks.index_of(k);
                            assert(ks[j] == k);
                            assert(ks2[j] == k);
                        } else {
                            assert(ks2[ks.len() as int] == k);
                        }
                    }
                    assert(self@ =~= before@.insert(key@, value));
                }
            },
        }
    }

    /// Takes `key` out of the map. The other keys keep their order.
    pub fn remove(&mut self, key: &str)
        ensures
            final(self)@ == old(self)@.remove(key@),
    {
        proof {
            use_type_invariant(&*self);
        }
        let ghost before = *self;
        let ghost ks = entry_keys(self.entries@);
        match self.find(key) {
            Some(i) => {
                let ghost ks2 = ks.remove(i as int);
                proof {
                    assert(entry_keys(before.entries@.remove(i as int)) =~= ks2);
                    assert(ks[i as int] == key@);
                }
                let mut entries: Vec<(String, V)> = Vec::new();
                core::mem::swap(&mut entries, &mut self.entries);
                let _ = entries.remove(i);
                self.entries = entries;
                proof {
                    assert forall|k: Seq<char>| ks2.contains(k) <==> (ks.contains(k) && k
                        != key@) by {
                        if ks2.contains(k) {
                            let j2 = ks2.index_of(k);
                            assert(ks2[j2] == k);
                            if j2 < i {
                                assert(ks[j2] == k);
                            } else {
                                assert(ks[j2 + 1] == k);
                            }
                        }
                        if ks.contains(k) && k != key@ {
                            let j = ks.index_of(k);
                            assert(ks[j] == k);
                            if j < i {
                                assert(ks2[j] == k);
                            } else {
                                assert(ks2[j - 1] == k);
                            }
                        }
                    }
                    assert forall|k: Seq<char>| self@.contains_key(k) implies #[trigger] self@[k]
                        == before@.remove(key@)[k] by {
                        let j2 = ks2.index_of(k);
                        assert(ks2[j2] == k);
                        let j = ks.index_of(k);
                        assert(ks[j] == k);
                        if j2 < i {
                            assert(ks[j2] == k);
                        } else {
                            assert(ks[j2 + 1] == k);
                        }
                    }
                    assert(self@ =~= before@.remove(key@));
                }
            },
            None => {
                assert(self@ =~= before@.remove(key@));
            },
        }
    }

    /// The key at place `i` of the insertion order.
    pub fn key_at(&self, i: usize) -> (k: &String)
        requires
            i < self.key_order().len(),
        ensures
            k@ == self.key_order()[i as int],
    {
        &self.entries[i].0
    }

    /// The value at place `i` of the insertion order: the value that the
    /// map holds under the key at that place.
    pub fn value_at(&self, i: usize) -> (v: &V)
        requires
            i < self.key_order().len(),
        ensures
            *v == self.value_order()[i as int],
            self@.contains_key(self.key_order()[i as int]),
            *v == self@[self.key_order()[i as int]],
    {
        proof {
            use_type_invariant(self);
            let ks = entry_keys(self.entries@);
            let k = ks[i as int];
            assert(ks.contains(k));
            let j = ks.index_of(k);
            assert(ks[j] == k);
        }
        &self.entries[i].1
    }
}

impl<V: Copy> TextMap<V> {
    /// A copy of the map: the same keys in the same order with the same
    /// values.
    pub fn duplicate(&self) -> (r: Self)
        ensures
            r@ == self@,
            r.key_order() == self.key_order(),
    {
        proof {
            use_type_invariant(self);
        }
        let mut entries: Vec<(String, V)> = Vec::new();
        let mut i: usize = 0;
        while i < self.entries.len()
            invariant
                i <= self.entries@.len(),
                entries@.len() == i,
                forall|j: int|
                    0 <= j < i ==> (#[trigger] entries@[j]).0@ == self.entries@[j].0@
                        && entries@[j].1 == self.entries@[j].1,
            decreases self.entries@.len() - i,
        {
            let key = self.entries[i].0.clone();
            let value = self.entries[i].1;
            entries.push((key, value));
            i = i + 1;
        }
        proof {
            assert(entry_keys(entries@) =~= entry_keys(self.entries@));
        }
        let r = TextMap { entries };
        proof {
            assert forall|k: Seq<char>| r@.contains_key(k) implies #[trigger] r@[k] == self@[k] by {
                let j = entry_keys(self.entries@).index_of(k);
            }
            assert(r@ =~= self@);
        }
        r
    }
}

impl<V: Clone> Clone for TextMap<V> {
    /// A copy with the same keys in the same order.
    fn clone(&self) -> (r: Self)
        ensures
            r.key_order() == self.key_order(),
    {
        proof {
            use_type_invariant(self);
        }
        let mut entries: Vec<(String, V)> = Vec::new();
        let mut i: usize = 0;
        while i < self.entries.len()
            invariant
                i <= self.entries@.len(),
                entry_keys(entries@) == entry_keys(self.entries@).take(i as int),
            decreases self.entries@.len() - i,
        {
            let ghost prior = entries@;
            let key = self.entries[i].0.clone();
            let value = self.entries[i].1.clone();
            entries.push((key, value));
            proof {
                assert(entry_keys(entries@) =~= entry_keys(prior).push(key@));
                assert(entry_keys(self.entries@).take(i + 1) =~= entry_keys(self.entries@).take(
                    i as int,
                ).push(key@));
            }
            i = i + 1;
        }
        proof {
            assert(entry_keys(self.entries@).take(self.entries@.len() as int) =~= entry_keys(
                self.entries@,
            ));
        }
        TextMap { entries }
    }
}

} // verus!
