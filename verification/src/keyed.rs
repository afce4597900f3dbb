use vstd::prelude::*;
use crate::assoc::{
    assoc_lookup, lemma_assoc_lookup_absent, lemma_assoc_lookup_found, lemma_assoc_lookup_push,
    lemma_assoc_lookup_some, lemma_assoc_lookup_update,
};

verus! {

/// A map from text keys to values, kept as a list of entries in insertion
/// order with no key twice.
#[derive(Debug, Clone)]
pub struct KeyedList<V> {
    entries: Vec<(String, V)>,
}

/// The keys and values of entries, as mathematical values.
pub open spec fn entries_model<V: View>(entries: Seq<(String, V)>) -> Seq<(Seq<char>, V::V)> {
    entries.map_values(|e: (String, V)| (e.0@, e.1@))
}

/// The map that a list of entries stands for (the first entry of a key wins).
pub open spec fn map_of_entries<V>(m: Seq<(Seq<char>, V)>) -> Map<Seq<char>, V> {
    Map::new(|k: Seq<char>| assoc_lookup(m, k) is Some, |k: Seq<char>| assoc_lookup(m, k)->0)
}

pub open spec fn keys_distinct<V>(m: Seq<(Seq<char>, V)>) -> bool {
    forall|i: int, j: int| 0 <= i < j < m.len() ==> m[i].0 != m[j].0
}

impl<V: View> View for KeyedList<V> {
    type V = Map<Seq<char>, V::V>;

    open spec fn view(&self) -> Map<Seq<char>, V::V> {
        map_of_entries(self.model())
    }
}

impl<V: View> KeyedList<V> {
    pub closed spec fn model(&self) -> Seq<(Seq<char>, V::V)> {
        entries_model(self.entries@)
    }

    /// No key occurs twice.
    pub closed spec fn wf(&self) -> bool {
        keys_distinct(self.model())
    }

    pub fn new() -> (r: Self)
        ensures
            r.wf(),
            r@ == Map::<Seq<char>, V::V>::empty(),
    {
        let r = KeyedList { entries: Vec::new() };
        assert(r@ =~= Map::<Seq<char>, V::V>::empty());
        r
    }

    /// Number of keys.
    pub fn len(&self) -> (n: usize)
        requires
            self.wf(),
        ensures
            n == self@.dom().len(),
    {
        proof {
            self.lemma_dom_is_keys();
        }
        self.entries.len()
    }

    /// Index of the entry holding `key`, if any.
    fn position(&self, key: &String) -> (r: Option<usize>)
        ensures
            match r {
                Some(i) => i < self.entries.len() && self.model()[i as int].0 == key@
                    && forall|j: int| 0 <= j < i ==> self.model()[j].0 != key@,
                None => forall|j: int| 0 <= j < self.model().len() ==> self.model()[j].0 != key@,
            },
    {
        let ghost m = self.model();
        let mut i: usize = 0;
        while i < self.entries.len()
            invariant
                i <= self.entries.len(),
                m == self.model(),
                m.len() == self.entries.len(),
                forall|j: int| 0 <= j < i ==> m[j].0 != key@,
            decreases self.entries.len() - i,
        {
            if self.entries[i].0 == *key {
                return Some(i);
            }
            i = i + 1;
        }
        None
    }

    /// The value stored under `key`.
    pub fn get(&self, key: &str) -> (r: Option<&V>)
        ensures
            match r {
                Some(v) => self@.contains_key(key@) && self@[key@] == v@,
                None => !self@.contains_key(key@),
            },
    {
        let k = String::from_str(key);
        match self.position(&k) {
            Some(i) => {
                proof {
                    lemma_assoc_lookup_found(self.model(), key@, i as int);
                }
                Some(&self.entries[i].1)
            },
            None => {
                proof {
                    lemma_assoc_lookup_absent(self.model(), key@);
                }
                None
            },
        }
    }

    /// Stores `value` under `key`, replacing what was there.
    pub fn insert(&mut self, key: String, value: V)
        requires
            old(self).wf(),
        ensures
            final(self).wf(),
            final(self)@ == old(self)@.insert(key@, value@),
    {
        let ghost old_model = self.model();
        let ghost e = (key@, value@);
        match self.position(&key) {
            Some(i) => {
                self.entries.set(i, (key, value));
                proof {
                    assert(self.model() =~= old_model.update(i as int, e));
                    assert forall|k: Seq<char>| true implies #[trigger] assoc_lookup(self.model(), k) == (
                    if k == e.0 {
                        Some(e.1)
                    } else {
                        assoc_lookup(old_model, k)
                    }) by {
                        lemma_assoc_lookup_update(old_model, i as int, e, k);
                    }
                }
            },
            None => {
                self.entries.push((key, value));
                proof {
                    assert(self.model() =~= old_model.push(e));
                    assert forall|k: Seq<char>| true implies #[trigger] assoc_lookup(self.model(), k) == (
                    if assoc_lookup(old_model, k) is Some {
                        assoc_lookup(old_model, k)
                    } else if e.0 == k {
                        Some(e.1)
                    } else {
                        None
                    }) by {
                        lemma_assoc_lookup_push(old_model, e, k);
                    }
                    lemma_assoc_lookup_absent(old_model, e.0);
                }
            },
        }
        proof {
            assert(self@ =~= old(self)@.insert(key@, value@));
        }
    }

    /// The keys are exactly the keys of the entries.
    proof fn lemma_dom_is_keys(&self)
        ensures
            forall|k: Seq<char>| #[trigger] self@.contains_key(k) <==> exists|j: int|
                0 <= j < self.model().len() && self.model()[j].0 == k,
            self.wf() ==> self@.dom().len() == self.model().len(),
    {
        assert forall|k: Seq<char>| #[trigger] self@.contains_key(k) <==> exists|j: int|
            0 <= j < self.model().len() && self.model()[j].0 == k by {
            lemma_assoc_lookup_some(self.model(), k);
        }
        if self.wf() {
            let keys = self.model().map_values(|e: (Seq<char>, V::V)| e.0);
            assert(keys.no_duplicates());
            keys.unique_seq_to_set();
            assert(keys.to_set() =~= self@.dom()) by {
                assert forall|k: Seq<char>| keys.to_set().contains(k) implies self@.dom().contains(k) by {
                    let j = choose|j: int| 0 <= j < keys.len() && keys[j] == k;
                    assert(self.model()[j].0 == k);
                }
                assert forall|k: Seq<char>| self@.dom().contains(k) implies keys.to_set().contains(k) by {
                    assert(self@.contains_key(k));
                    let j = choose|j: int| 0 <= j < self.model().len() && self.model()[j].0 == k;
                    assert(keys[j] == k);
                }
            }
        }
    }

    /// The keys, each once, in insertion order.
    pub fn keys(&self) -> (r: Vec<String>)
        requires
            self.wf(),
        ensures
            r@.map_values(|s: String| s@).no_duplicates(),
            r@.map_values(|s: String| s@).to_set() == self@.dom(),
    {
        proof {
            self.lemma_dom_is_keys();
        }
        let ghost m = self.model();
        let mut r: Vec<String> = Vec::new();
        let mut i: usize = 0;
        while i < self.entries.len()
            invariant
                i <= self.entries.len(),
                m == self.model(),
                m.len() == self.entries.len(),
                keys_distinct(m),
                r@.len() == i,
                forall|j: int| 0 <= j < i ==> #[trigger] r@[j]@ == m[j].0,
            decreases self.entries.len() - i,
        {
            r.push(self.entries[i].0.clone());
            i = i + 1;
        }
        let ghost rv = r@.map_values(|s: String| s@);
        assert forall|a: int, b: int| 0 <= a < rv.len() && 0 <= b < rv.len() && a != b implies rv[a]
            != rv[b] by {
            if a < b {
                assert(m[a].0 != m[b].0);
            } else {
                assert(m[b].0 != m[a].0);
            }
        }
        assert(rv.to_set() =~= self@.dom()) by {
            assert forall|k: Seq<char>| rv.to_set().contains(k) implies self@.dom().contains(k) by {
                let j = choose|j: int| 0 <= j < rv.len() && rv[j] == k;
                assert(m[j].0 == k);
            }
            assert forall|k: Seq<char>| self@.dom().contains(k) implies rv.to_set().contains(k) by {
                assert(self@.contains_key(k));
                let j = choose|j: int| 0 <= j < m.len() && m[j].0 == k;
                assert(rv[j] == k);
            }
        }
        r
    }
}

} // verus!
