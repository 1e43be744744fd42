//! A map keyed by text, kept as a list of entries with distinct keys.
//!
//! The host keys its property sets, timers, clips and named plugins
//! and instances by strings. This map gives those lookups an exact
//! model: its view is a `Map` from the key's characters to the value.

use vstd::prelude::*;
use crate::strings::text_eq;

verus! {

/// True when no two entries of `e` share a key.
pub open spec fn keys_distinct<V>(e: Seq<(String, V)>) -> bool {
    forall|i: int, j: int|
        0 <= i < e.len() && 0 <= j < e.len() && (#[trigger] e[i]).0@ == (#[trigger] e[j]).0@
            ==> i == j
}

/// True when some entry of `e` has key `k`.
pub open spec fn has_key<V>(e: Seq<(String, V)>, k: Seq<char>) -> bool {
    exists|i: int| 0 <= i < e.len() && (#[trigger] e[i]).0@ == k
}

/// The value of the entry of `e` with key `k`.
pub open spec fn value_for<V>(e: Seq<(String, V)>, k: Seq<char>) -> V {
    e[choose|i: int| 0 <= i < e.len() && (#[trigger] e[i]).0@ == k].1
}

/// The map that a list of entries stands for.
pub open spec fn entries_map<V>(e: Seq<(String, V)>) -> Map<Seq<char>, V> {
    Map::new(|k: Seq<char>| has_key(e, k), |k: Seq<char>| value_for(e, k))
}

/// An entry with distinct keys is found under its own key.
pub proof fn lemma_entry_in_map<V>(e: Seq<(String, V)>, i: int)
    requires
        keys_distinct(e),
        0 <= i < e.len(),
    ensures
        entries_map(e).contains_key(e[i].0@),
        entries_map(e)[e[i].0@] == e[i].1,
{
    let k = e[i].0@;
    assert(has_key(e, k));
    let j = choose|j: int| 0 <= j < e.len() && (#[trigger] e[j]).0@ == k;
    assert(j == i);
}

/// A text-keyed map.
#[derive(Debug)]
pub struct StrMap<V> {
    entries: Vec<(String, V)>,
}

impl<V> View for StrMap<V> {
    type V = Map<Seq<char>, V>;

    closed spec fn view(&self) -> Map<Seq<char>, V> {
        entries_map(self.entries@)
    }
}

impl<V> StrMap<V> {
    #[verifier::type_invariant]
    spec fn inv(&self) -> bool {
        keys_distinct(self.entries@)
    }

    /// The entries, in storage order.
    pub closed spec fn entries(&self) -> Seq<(String, V)> {
        self.entries@
    }

    /// An empty map.
    pub fn new() -> (r: Self)
        ensures
            r@ == Map::<Seq<char>, V>::empty(),
    {
        let r = StrMap { entries: Vec::new() };
        assert(r@ =~= Map::<Seq<char>, V>::empty());
        r
    }

    /// The number of keys.
    pub fn len(&self) -> (r: usize)
        ensures
            r == self@.len(),
            r == self.entries().len(),
    {
        proof {
            use_type_invariant(self);
            lemma_finite_len(self.entries@);
        }
        self.entries.len()
    }

    /// The position of `key` among the entries.
    fn find(&self, key: &str) -> (r: Option<usize>)
        ensures
            r is None <==> !self@.contains_key(key@),
            r matches Some(i) ==> i < self.entries@.len() && self.entries@[i as int].0@ == key@,
    {
        proof {
            use_type_invariant(self);
        }
        let mut i: usize = 0;
        while i < self.entries.len()
            invariant
                i <= self.entries@.len(),
                forall|j: int| 0 <= j < i ==> (#[trigger] self.entries@[j]).0@ != key@,
            decreases self.entries@.len() - i,
        {
            if text_eq(self.entries[i].0.as_str(), key) {
                return Some(i);
            }
            i = i + 1;
        }
        None
    }

    /// True when `key` has an entry.
    pub fn contains_key(&self, key: &str) -> (r: bool)
        ensures
            r == self@.contains_key(key@),
    {
        self.find(key).is_some()
    }

    /// The value stored under `key`.
    pub fn get(&self, key: &str) -> (r: Option<&V>)
        ensures
            match r {
                Some(v) => self@.contains_key(key@) && *v == self@[key@],
                None => !self@.contains_key(key@),
            },
    {
        proof {
            use_type_invariant(self);
        }
        match self.find(key) {
            Some(i) => {
                proof {
                    lemma_entry_in_map(self.entries@, i as int);
                }
                Some(&self.entries[i].1)
            },
            None => None,
        }
    }

    /// Removes the entry of `key`, returning its value.
    pub fn remove(&mut self, key: &str) -> (r: Option<V>)
        ensures
            final(self)@ == old(self)@.remove(key@),
            match r {
                Some(v) => old(self)@.contains_key(key@) && v == old(self)@[key@],
                None => !old(self)@.contains_key(key@),
            },
    {
        proof {
            use_type_invariant(&*self);
        }
        match self.find(key) {
            Some(i) => {
                let ghost old_e = self.entries@;
                proof {
                    lemma_entry_in_map(old_e, i as int);
                }
                let mut e: Vec<(String, V)> = Vec::new();
                std::mem::swap(&mut e, &mut self.entries);
                let (_k, v) = e.remove(i);
                let ghost new_e = e@;
                assert(new_e == old_e.remove(i as int));
                assert forall|a: int, b: int|
                    0 <= a < new_e.len() && 0 <= b < new_e.len() && (#[trigger] new_e[a]).0@
                        == (#[trigger] new_e[b]).0@ implies a == b by {
                    let a2 = if a < i { a } else { a + 1 };
                    let b2 = if b < i { b } else { b + 1 };
                    assert(new_e[a] == old_e[a2]);
                    assert(new_e[b] == old_e[b2]);
                }
                assert forall|k: Seq<char>| #![auto]
                    has_key(new_e, k) == (has_key(old_e, k) && k != key@) by {
                    if has_key(new_e, k) {
                        let a = choose|a: int| 0 <= a < new_e.len() && (#[trigger] new_e[a]).0@ == k;
                        let a2 = if a < i { a } else { a + 1 };
                        assert(old_e[a2].0@ == k);
                        assert(a2 != i);
                    }
                    if has_key(old_e, k) && k != key@ {
                        let a = choose|a: int| 0 <= a < old_e.len() && (#[trigger] old_e[a]).0@ == k;
                        assert(a != i);
                        let a1 = if a < i { a } else { a - 1 };
                        assert(new_e[a1] == old_e[a]);
                    }
                }
                assert forall|k: Seq<char>| has_key(new_e, k) implies
                    value_for(new_e, k) == value_for(old_e, k) by {
                    let a = choose|a: int| 0 <= a < new_e.len() && (#[trigger] new_e[a]).0@ == k;
                    let a2 = if a < i { a } else { a + 1 };
                    assert(new_e[a] == old_e[a2]);
                    lemma_entry_in_map(new_e, a);
                    lemma_entry_in_map(old_e, a2);
                }
                assert(entries_map(new_e) =~= entries_map(old_e).remove(key@));
                self.entries = e;
                Some(v)
            },
            None => {
                assert(self@ =~= old(self)@.remove(key@));
                None
            },
        }
    }

    /// Stores `value` under `key`, returning the value it replaces.
    pub fn insert(&mut self, key: String, value: V) -> (r: Option<V>)
        ensures
            final(self)@ == old(self)@.insert(key@, value),
            match r {
                Some(v) => old(self)@.contains_key(key@) && v == old(self)@[key@],
                None => !old(self)@.contains_key(key@),
            },
    {
        let r = self.remove(key.as_str());
        proof {
            use_type_invariant(&*self);
        }
        let ghost mid = self.entries@;
        let ghost k = key@;
        assert(!self@.contains_key(k));
        assert(!has_key(mid, k));
        let mut e: Vec<(String, V)> = Vec::new();
        std::mem::swap(&mut e, &mut self.entries);
        e.push((key, value));
        let ghost new_e = e@;
        assert(new_e == mid.push((key, value)));
        assert forall|a: int, b: int|
            0 <= a < new_e.len() && 0 <= b < new_e.len() && (#[trigger] new_e[a]).0@
                == (#[trigger] new_e[b]).0@ implies a == b by {
            if a < mid.len() && b == mid.len() {
                assert(mid[a].0@ == k);
            }
            if b < mid.len() && a == mid.len() {
                assert(mid[b].0@ == k);
            }
        }
        assert forall|kk: Seq<char>| #![auto] has_key(new_e, kk) == (has_key(mid, kk) || kk == k) by {
            if has_key(mid, kk) {
                let a = choose|a: int| 0 <= a < mid.len() && (#[trigger] mid[a]).0@ == kk;
                assert(new_e[a] == mid[a]);
            }
            if kk == k {
                assert(new_e[mid.len() as int].0@ == k);
            }
            if has_key(new_e, kk) && kk != k {
                let a = choose|a: int| 0 <= a < new_e.len() && (#[trigger] new_e[a]).0@ == kk;
                assert(a < mid.len());
                assert(mid[a] == new_e[a]);
            }
        }
        assert forall|kk: Seq<char>| has_key(new_e, kk) implies
            value_for(new_e, kk) == (if kk == k { value } else { value_for(mid, kk) }) by {
            let a = choose|a: int| 0 <= a < new_e.len() && (#[trigger] new_e[a]).0@ == kk;
            lemma_entry_in_map(new_e, a);
            if a < mid.len() {
                assert(mid[a] == new_e[a]);
                assert(keys_distinct(mid));
                lemma_entry_in_map(mid, a);
            }
        }
        assert(entries_map(new_e) =~= entries_map(mid).insert(k, value));
        self.entries = e;
        r
    }

    /// The key and value of the entry at position `i`.
    pub fn entry_at(&self, i: usize) -> (r: (&String, &V))
        requires
            i < self.entries().len(),
        ensures
            *r.0 == self.entries()[i as int].0,
            *r.1 == self.entries()[i as int].1,
            self@.contains_key(r.0@),
            self@[r.0@] == *r.1,
            forall|j: int|
                0 <= j < self.entries().len() && j != i ==> (#[trigger] self.entries()[j]).0@ != r.0@,
            forall|k: Seq<char>|
                #[trigger] self@.contains_key(k) ==> exists|j: int|
                    0 <= j < self.entries().len() && (#[trigger] self.entries()[j]).0@ == k,
    {
        proof {
            use_type_invariant(self);
            lemma_entry_in_map(self.entries@, i as int);
        }
        (&self.entries[i].0, &self.entries[i].1)
    }
}

impl<V: Clone> Clone for StrMap<V> {
    /// A copy with the same keys; each value is cloned.
    fn clone(&self) -> (r: Self)
        ensures
            r@.dom() == self@.dom(),
            forall|k: Seq<char>| #[trigger] r@.contains_key(k) ==> cloned::<V>(self@[k], r@[k]),
    {
        proof {
            use_type_invariant(self);
        }
        let mut out: Vec<(String, V)> = Vec::new();
        for i in 0..self.entries.len()
            invariant
                keys_distinct(self.entries@),
                out@.len() == i,
                forall|j: int| 0 <= j < i ==> (#[trigger] out@[j]).0@ == self.entries@[j].0@,
                forall|j: int| 0 <= j < i ==> cloned::<V>(self.entries@[j].1, (#[trigger] out@[j]).1),
        {
            let k = self.entries[i].0.clone();
            let v = self.entries[i].1.clone();
            assert(cloned::<V>(self.entries@[i as int].1, v));
            out.push((k, v));
        }
        let ghost e = self.entries@;
        assert forall|a: int, b: int|
            0 <= a < out@.len() && 0 <= b < out@.len() && (#[trigger] out@[a]).0@
                == (#[trigger] out@[b]).0@ implies a == b by {
            assert(e[a].0@ == e[b].0@);
        }
        assert forall|k: Seq<char>| #![auto] has_key(out@, k) == has_key(e, k) by {
            if has_key(out@, k) {
                let a = choose|a: int| 0 <= a < out@.len() && (#[trigger] out@[a]).0@ == k;
                assert(e[a].0@ == k);
            }
            if has_key(e, k) {
                let a = choose|a: int| 0 <= a < e.len() && (#[trigger] e[a]).0@ == k;
                assert(out@[a].0@ == k);
            }
        }
        let r = StrMap { entries: out };
        assert(r@.dom() =~= self@.dom());
        assert forall|k: Seq<char>| #[trigger] r@.contains_key(k) implies cloned::<V>(
            self@[k],
            r@[k],
        ) by {
            let a = choose|a: int| 0 <= a < out@.len() && (#[trigger] out@[a]).0@ == k;
            lemma_entry_in_map(out@, a);
            lemma_entry_in_map(e, a);
        }
        r
    }
}

/// The number of keys of a list with distinct keys is its length.
proof fn lemma_finite_len<V>(e: Seq<(String, V)>)
    requires
        keys_distinct(e),
    ensures
        entries_map(e).dom().finite(),
        entries_map(e).len() == e.len(),
    decreases e.len(),
{
    if e.len() == 0 {
        assert(entries_map(e).dom() =~= Set::<Seq<char>>::empty());
    } else {
        let p = e.drop_last();
        assert forall|a: int, b: int|
            0 <= a < p.len() && 0 <= b < p.len() && (#[trigger] p[a]).0@ == (#[trigger] p[b]).0@
                implies a == b by {
            assert(p[a] == e[a]);
            assert(p[b] == e[b]);
        }
        lemma_finite_len(p);
        let k = e.last().0@;
        assert forall|kk: Seq<char>| #![auto] has_key(e, kk) == (has_key(p, kk) || kk == k) by {
            if has_key(p, kk) {
                let a = choose|a: int| 0 <= a < p.len() && (#[trigger] p[a]).0@ == kk;
                assert(e[a] == p[a]);
            }
            if kk == k {
                assert(e[e.len() - 1].0@ == k);
            }
            if has_key(e, kk) && kk != k {
                let a = choose|a: int| 0 <= a < e.len() && (#[trigger] e[a]).0@ == kk;
                assert(a < p.len());
                assert(p[a] == e[a]);
            }
        }
        assert(!has_key(p, k)) by {
            if has_key(p, k) {
                let a = choose|a: int| 0 <= a < p.len() && (#[trigger] p[a]).0@ == k;
                assert(e[a] == p[a]);
                assert(e[e.len() - 1] == e.last());
            }
        }
        assert(entries_map(e).dom() =~= entries_map(p).dom().insert(k));
    }
}

} // verus!
