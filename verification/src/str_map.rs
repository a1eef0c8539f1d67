//! A map from names to values.
use std::sync::Arc;
use vstd::prelude::*;

use crate::text::text_eq;

verus! {

/// A map keyed by text. No key occurs twice; entries stay in the order in which
/// their keys first came in.
pub struct StrMap<V> {
    entries: Vec<(Arc<str>, V)>,
}

impl<V> View for StrMap<V> {
    type V = Map<Seq<char>, V>;

    closed spec fn view(&self) -> Map<Seq<char>, V> {
        Map::new(
            |k: Seq<char>| exists|i: int| #[trigger] self.holds_at(k, i),
            |k: Seq<char>| self.entries@[choose|i: int| #[trigger] self.holds_at(k, i)].1,
        )
    }
}

impl<V> StrMap<V> {
    /// Entry `i` has key `k`.
    spec fn holds_at(&self, k: Seq<char>, i: int) -> bool {
        0 <= i < self.entries@.len() && self.entries@[i].0@ == k
    }

    #[verifier::type_invariant]
    spec fn keys_distinct(&self) -> bool {
        forall|i: int, j: int|
            0 <= i < j < self.entries@.len() ==> #[trigger] self.entries@[i].0@
                != #[trigger] self.entries@[j].0@
    }

    /// The keys, in the order of the entries.
    pub closed spec fn keys(&self) -> Seq<Seq<char>> {
        self.entries@.map_values(|e: (Arc<str>, V)| e.0@)
    }

    proof fn lemma_entry(&self, i: int)
        requires
            self.keys_distinct(),
            0 <= i < self.entries@.len(),
        ensures
            self@.contains_key(self.entries@[i].0@),
            self@[self.entries@[i].0@] == self.entries@[i].1,
    {
        let k = self.entries@[i].0@;
        assert(self.holds_at(k, i));
        let c = choose|c: int| #[trigger] self.holds_at(k, c);
        assert(self.holds_at(k, c));
    }

    /// An empty map.
    pub fn new() -> (r: Self)
        ensures
            r@ == Map::<Seq<char>, V>::empty(),
            r.keys() == Seq::<Seq<char>>::empty(),
    {
        let r = StrMap { entries: Vec::new() };
        proof {
            assert(forall|k: Seq<char>, i: int| !r.holds_at(k, i));
            assert(r@ =~= Map::<Seq<char>, V>::empty());
            assert(r.keys() =~= Seq::<Seq<char>>::empty());
        }
        r
    }

    /// How many keys the map has.
    pub fn len(&self) -> (n: usize)
        ensures
            n == self.keys().len(),
            self.keys().no_duplicates(),
            forall|k: Seq<char>| #[trigger] self.keys().contains(k) <==> self@.contains_key(k),
    {
        proof {
            use_type_invariant(self);
            let keys = self.keys();
            assert forall|k: Seq<char>| #[trigger] keys.contains(k) <==> self@.contains_key(k) by {
                if keys.contains(k) {
                    let i = choose|i: int| 0 <= i < keys.len() && keys[i] == k;
                    assert(self.holds_at(k, i));
                }
                if self@.contains_key(k) {
                    let i = choose|i: int| #[trigger] self.holds_at(k, i);
                    assert(keys[i] == k);
                }
            }
        }
        self.entries.len()
    }

    /// Where `key` stands among the entries.
    fn position(&self, key: &str) -> (r: Option<usize>)
        ensures
            match r {
                Some(i) => i < self.entries@.len() && self.entries@[i as int].0@ == key@,
                None => forall|i: int|
                    0 <= i < self.entries@.len() ==> #[trigger] self.entries@[i].0@ != key@,
            },
    {
        let mut i: usize = 0;
        while i < self.entries.len()
            invariant
                i <= self.entries@.len(),
                forall|j: int| 0 <= j < i ==> #[trigger] self.entries@[j].0@ != key@,
            decreases self.entries.len() - i,
        {
            if text_eq(&self.entries[i].0, key) {
                return Some(i);
            }
            i = i + 1;
        }
        None
    }

    /// The value under `key`.
    pub fn get(&self, key: &str) -> (r: Option<&V>)
        ensures
            match r {
                Some(v) => self@.contains_key(key@) && *v == self@[key@],
                None => !self@.contains_key(key@),
            },
    {
        proof {
            use_type_invariant(self);
        }
        match self.position(key) {
            Some(i) => {
                proof {
                    self.lemma_entry(i as int);
                }
                Some(&self.entries[i].1)
            },
            None => {
                assert(forall|i: int| !self.holds_at(key@, i));
                None
            },
        }
    }

    /// The `i`-th key with its value.
    pub fn entry(&self, i: usize) -> (r: (&Arc<str>, &V))
        requires
            i < self.keys().len(),
        ensures
            r.0@ == self.keys()[i as int],
            self@.contains_key(r.0@),
            *r.1 == self@[r.0@],
    {
        proof {
            use_type_invariant(self);
            self.lemma_entry(i as int);
        }
        (&self.entries[i].0, &self.entries[i].1)
    }

    /// Puts `value` under `key`, in place of what stood there before.
    pub fn insert(&mut self, key: Arc<str>, value: V)
        ensures
            final(self)@ == old(self)@.insert(key@, value),
            final(self).keys() == if old(self)@.contains_key(key@) {
                old(self).keys()
            } else {
                old(self).keys().push(key@)
            },
    {
        proof {
            use_type_invariant(&*self);
        }
        let ghost before = *self;
        let at = self.position(&key);
        let ghost new_key = key@;
        let mut entries: Vec<(Arc<str>, V)> = Vec::new();
        std::mem::swap(&mut entries, &mut self.entries);
        match at {
            Some(i) => {
                proof {
                    before.lemma_entry(i as int);
                }
                entries.set(i, (key, value));
            },
            None => {
                assert(forall|i: int| !before.holds_at(key@, i));
                entries.push((key, value));
            },
        }
        self.entries = entries;
        let ghost r = *self;
        proof {
            assert forall|k: Seq<char>| #[trigger]
                r@.contains_key(k) <==> before@.insert(new_key, value).contains_key(k) by {
                if r@.contains_key(k) {
                    let i = choose|i: int| #[trigger] r.holds_at(k, i);
                    if k != new_key {
                        assert(before.holds_at(k, i));
                    }
                }
                if before@.contains_key(k) {
                    let i = choose|i: int| #[trigger] before.holds_at(k, i);
                    assert(r.holds_at(k, i));
                }
                if k == new_key {
                    let i = match at {
                        Some(i) => i as int,
                        None => before.entries@.len() as int,
                    };
                    assert(r.holds_at(k, i));
                }
            }
            assert forall|k: Seq<char>| #[trigger] r@.contains_key(k) implies r@[k]
                == before@.insert(new_key, value)[k] by {
                let i = choose|i: int| #[trigger] r.holds_at(k, i);
                r.lemma_entry(i);
                if k != new_key {
                    assert(before.holds_at(k, i));
                    before.lemma_entry(i);
                }
            }
            assert(r@ =~= before@.insert(new_key, value));
            if at is Some {
                assert(r.keys() =~= before.keys());
            } else {
                assert(r.keys() =~= before.keys().push(new_key));
            }
        }
    }
}

impl<P: ?Sized> StrMap<Arc<P>> {
    /// A second map with the same keys that shares the values.
    pub fn share(&self) -> (r: Self)
        ensures
            r@ == self@,
            r.keys() == self.keys(),
    {
        proof {
            use_type_invariant(self);
        }
        let mut entries: Vec<(Arc<str>, Arc<P>)> = Vec::new();
        let mut i: usize = 0;
        while i < self.entries.len()
            invariant
                i <= self.entries@.len(),
                entries@ == self.entries@.take(i as int),
            decreases self.entries.len() - i,
        {
            entries.push((self.entries[i].0.clone(), self.entries[i].1.clone()));
            assert(entries@ =~= self.entries@.take(i + 1));
            i = i + 1;
        }
        assert(entries@ =~= self.entries@);
        let r = StrMap { entries };
        proof {
            assert(forall|k: Seq<char>, i: int| r.holds_at(k, i) == self.holds_at(k, i));
            assert(r@ =~= self@);
        }
        r
    }
}

} // verus!
