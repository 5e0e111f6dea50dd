//! A small map keyed by strings that remembers the order in which keys arrived.

use crate::text::str_eq;
use vstd::prelude::*;

verus! {

/// Entry `i` of `s` has the key `k`.
pub open spec fn key_at<V>(s: Seq<(String, V)>, i: int, k: Seq<char>) -> bool {
    0 <= i < s.len() && s[i].0@ == k
}

/// Some entry of `s` has the key `k`.
pub open spec fn has_key<V>(s: Seq<(String, V)>, k: Seq<char>) -> bool {
    exists|i: int| key_at(s, i, k)
}

/// An entry of `s` with the key `k`, where there is one.
pub open spec fn index_of<V>(s: Seq<(String, V)>, k: Seq<char>) -> int {
    choose|i: int| key_at(s, i, k)
}

/// No key occurs in two entries.
pub open spec fn keys_distinct<V>(s: Seq<(String, V)>) -> bool {
    forall|i: int, j: int| 0 <= i < j < s.len() ==> (#[trigger] s[i]).0@ != (#[trigger] s[j]).0@
}

/// The map that the entries stand for.
pub open spec fn as_map<V>(s: Seq<(String, V)>) -> Map<Seq<char>, V> {
    Map::new(|k: Seq<char>| has_key(s, k), |k: Seq<char>| s[index_of(s, k)].1)
}

/// The test that a key is not `key`.
pub open spec fn other_than(key: Seq<char>) -> spec_fn(Seq<char>) -> bool {
    |k: Seq<char>| k != key
}

/// The keys of the entries, in order.
pub open spec fn key_seq<V>(s: Seq<(String, V)>) -> Seq<Seq<char>> {
    Seq::new(s.len(), |i: int| s[i].0@)
}

/// With distinct keys, the entry found for a key is the one that holds it.
pub proof fn lemma_index_of<V>(s: Seq<(String, V)>, i: int)
    requires
        keys_distinct(s),
        0 <= i < s.len(),
    ensures
        has_key(s, s[i].0@),
        index_of(s, s[i].0@) == i,
        as_map(s).dom().contains(s[i].0@),
        as_map(s)[s[i].0@] == s[i].1,
{
    let k = s[i].0@;
    assert(key_at(s, i, k));
    let j = index_of(s, k);
    assert(key_at(s, j, k));
    if j < i {
        assert(s[j].0@ != s[i].0@);
    } else if i < j {
        assert(s[i].0@ != s[j].0@);
    }
}

/// Appending an entry with a new key inserts it into the map.
pub proof fn lemma_push<V>(s: Seq<(String, V)>, e: (String, V))
    requires
        keys_distinct(s),
        !has_key(s, e.0@),
    ensures
        keys_distinct(s.push(e)),
        as_map(s.push(e)) == as_map(s).insert(e.0@, e.1),
        key_seq(s.push(e)) == key_seq(s).push(e.0@),
{
    let t = s.push(e);
    assert forall|i: int, j: int| 0 <= i < j < t.len() implies (#[trigger] t[i]).0@ != (#[trigger] t[j]).0@ by {
        if j == s.len() {
            assert(t[i] == s[i]);
            assert(!key_at(s, i, e.0@));
        } else {
            assert(t[i] == s[i]);
            assert(t[j] == s[j]);
        }
    }
    assert forall|k: Seq<char>| has_key(t, k) <==> (k == e.0@ || has_key(s, k)) by {
        if has_key(t, k) {
            let i = index_of(t, k);
            assert(key_at(t, i, k));
            if i < s.len() {
                assert(key_at(s, i, k));
            }
        }
        if has_key(s, k) {
            let i = index_of(s, k);
            assert(key_at(s, i, k));
            assert(key_at(t, i, k));
        }
        if k == e.0@ {
            assert(key_at(t, s.len() as int, k));
        }
    }
    assert forall|k: Seq<char>| has_key(t, k) implies #[trigger] as_map(t)[k] == as_map(s).insert(
        e.0@,
        e.1,
    )[k] by {
        let i = index_of(t, k);
        assert(key_at(t, i, k));
        lemma_index_of(t, i);
        if i < s.len() {
            assert(key_at(s, i, k));
            lemma_index_of(s, i);
        }
    }
    assert(as_map(t) =~= as_map(s).insert(e.0@, e.1));
    assert(key_seq(t) =~= key_seq(s).push(e.0@));
}

/// Taking an entry out removes its key from the map.
pub proof fn lemma_remove<V>(s: Seq<(String, V)>, i: int)
    requires
        keys_distinct(s),
        0 <= i < s.len(),
    ensures
        keys_distinct(s.remove(i)),
        as_map(s.remove(i)) == as_map(s).remove(s[i].0@),
        key_seq(s.remove(i)) == key_seq(s).remove(i),
        !has_key(s.remove(i), s[i].0@),
{
    let t = s.remove(i);
    let gone = s[i].0@;
    assert forall|a: int| 0 <= a < t.len() implies #[trigger] t[a] == s[if a < i { a } else { a + 1 }] by {}
    assert forall|a: int, b: int| 0 <= a < b < t.len() implies (#[trigger] t[a]).0@ != (#[trigger] t[b]).0@ by {
        let a2 = if a < i { a } else { a + 1 };
        let b2 = if b < i { b } else { b + 1 };
        assert(t[a] == s[a2]);
        assert(t[b] == s[b2]);
        assert(s[a2].0@ != s[b2].0@);
    }
    assert forall|k: Seq<char>| has_key(t, k) <==> (k != gone && has_key(s, k)) by {
        if has_key(t, k) {
            let a = index_of(t, k);
            assert(key_at(t, a, k));
            let a2 = if a < i { a } else { a + 1 };
            assert(t[a] == s[a2]);
            assert(key_at(s, a2, k));
            if a2 < i {
                assert(s[a2].0@ != s[i].0@);
            } else {
                assert(s[i].0@ != s[a2].0@);
            }
        }
        if k != gone && has_key(s, k) {
            let a2 = index_of(s, k);
            assert(key_at(s, a2, k));
            let a = if a2 < i { a2 } else { a2 - 1 };
            assert(t[a] == s[a2]);
            assert(key_at(t, a, k));
        }
    }
    assert forall|k: Seq<char>| has_key(t, k) implies #[trigger] as_map(t)[k] == as_map(s).remove(gone)[k] by {
        let a = index_of(t, k);
        assert(key_at(t, a, k));
        lemma_index_of(t, a);
        let a2 = if a < i { a } else { a + 1 };
        assert(t[a] == s[a2]);
        lemma_index_of(s, a2);
    }
    assert(as_map(t) =~= as_map(s).remove(gone));
    assert(key_seq(t) =~= key_seq(s).remove(i));
}

/// Putting an entry into a gap at `i` inserts it into the map.
pub proof fn lemma_insert_at<V>(s: Seq<(String, V)>, i: int, e: (String, V))
    requires
        keys_distinct(s),
        0 <= i <= s.len(),
        !has_key(s, e.0@),
    ensures
        keys_distinct(s.insert(i, e)),
        as_map(s.insert(i, e)) == as_map(s).insert(e.0@, e.1),
        key_seq(s.insert(i, e)) == key_seq(s).insert(i, e.0@),
{
    let t = s.insert(i, e);
    assert(t.remove(i) =~= s);
    assert forall|a: int, b: int| 0 <= a < b < t.len() implies (#[trigger] t[a]).0@ != (#[trigger] t[b]).0@ by {
        let a2 = if a < i { a } else { a - 1 };
        let b2 = if b < i { b } else { b - 1 };
        if a == i {
            assert(t[b] == s[b2]);
            assert(!key_at(s, b2, e.0@));
        } else if b == i {
            assert(t[a] == s[a2]);
            assert(!key_at(s, a2, e.0@));
        } else {
            assert(t[a] == s[a2]);
            assert(t[b] == s[b2]);
            assert(s[a2].0@ != s[b2].0@);
        }
    }
    lemma_remove(t, i);
    lemma_index_of(t, i);
    assert(as_map(t) =~= as_map(s).insert(e.0@, e.1));
    assert(key_seq(t) =~= key_seq(s).insert(i, e.0@));
}

/// A map from strings to values. Each key occurs once; the keys keep the order
/// in which they were first inserted.
#[derive(Debug, PartialEq, Eq)]
pub struct StringMap<V> {
    entries: Vec<(String, V)>,
}

impl<V> View for StringMap<V> {
    type V = Map<Seq<char>, V>;

    closed spec fn view(&self) -> Map<Seq<char>, V> {
        as_map(self.entries@)
    }
}

impl<V> StringMap<V> {
    #[verifier::type_invariant]
    closed spec fn well_formed(&self) -> bool {
        keys_distinct(self.entries@)
    }

    /// The keys in the order in which they were first inserted.
    pub closed spec fn keys(&self) -> Seq<Seq<char>> {
        key_seq(self.entries@)
    }

    /// The value stored under `key`, if any.
    pub open spec fn value_of(&self, key: Seq<char>) -> Option<V> {
        if self@.dom().contains(key) {
            Some(self@[key])
        } else {
            None
        }
    }

    /// The keys once `key` has been stored: as they are where the key is
    /// known, and with the key at their end where it is new.
    pub open spec fn keys_with(&self, key: Seq<char>) -> Seq<Seq<char>> {
        if self@.dom().contains(key) {
            self.keys()
        } else {
            self.keys().push(key)
        }
    }

    /// The keys once `key` has been taken out: the others, in their order.
    pub open spec fn keys_without(&self, key: Seq<char>) -> Seq<Seq<char>> {
        self.keys().filter(other_than(key))
    }

    /// The keys are exactly the domain of the map.
    pub proof fn lemma_keys(&self)
        ensures
            forall|k: Seq<char>| self.keys().contains(k) <==> self@.dom().contains(k),
    {
        let s = self.entries@;
        assert forall|k: Seq<char>| self.keys().contains(k) <==> self@.dom().contains(k) by {
            if self.keys().contains(k) {
                let i = choose|i: int| 0 <= i < self.keys().len() && self.keys()[i] == k;
                assert(key_at(s, i, k));
            }
            if self@.dom().contains(k) {
                let i = index_of(s, k);
                assert(key_at(s, i, k));
                assert(self.keys()[i] == k);
            }
        }
    }

    /// An empty map.
    pub fn new() -> (m: Self)
        ensures
            m@ == Map::<Seq<char>, V>::empty(),
            m.keys() == Seq::<Seq<char>>::empty(),
    {
        let m = StringMap { entries: Vec::new() };
        proof {
            assert forall|k: Seq<char>| !has_key(m.entries@, k) by {
                if has_key(m.entries@, k) {
                    assert(key_at(m.entries@, index_of(m.entries@, k), k));
                }
            }
            assert(m@ =~= Map::<Seq<char>, V>::empty());
            assert(m.keys() =~= Seq::<Seq<char>>::empty());
        }
        m
    }

    /// The number of keys.
    pub fn len(&self) -> (n: usize)
        ensures
            n == self.keys().len(),
    {
        self.entries.len()
    }

    /// Whether the map holds no key.
    pub fn is_empty(&self) -> (b: bool)
        ensures
            b == (self.keys().len() == 0),
    {
        self.entries.len() == 0
    }

    /// Where `key` stands among the entries.
    fn position(&self, key: &str) -> (r: Option<usize>)
        ensures
            match r {
                Some(i) => key_at(self.entries@, i as int, key@),
                None => !has_key(self.entries@, key@),
            },
    {
        let mut i: usize = 0;
        while i < self.entries.len()
            invariant
                i <= self.entries.len(),
                forall|j: int| 0 <= j < i ==> !key_at(self.entries@, j, key@),
            decreases self.entries.len() - i,
        {
            if str_eq(self.entries[i].0.as_str(), key) {
                return Some(i);
            }
            i += 1;
        }
        proof {
            if has_key(self.entries@, key@) {
                let j = index_of(self.entries@, key@);
                assert(key_at(self.entries@, j, key@));
            }
        }
        None
    }

    /// Whether `key` is in the map.
    pub fn contains_key(&self, key: &str) -> (b: bool)
        ensures
            b == self@.dom().contains(key@),
    {
        self.position(key).is_some()
    }

    /// The value stored under `key`.
    pub fn get(&self, key: &str) -> (r: Option<&V>)
        ensures
            match r {
                Some(v) => self.value_of(key@) == Some(*v),
                None => self.value_of(key@) is None,
            },
    {
        proof {
            use_type_invariant(self);
        }
        match self.position(key) {
            Some(i) => {
                proof {
                    lemma_index_of(self.entries@, i as int);
                }
                Some(&self.entries[i].1)
            },
            None => None,
        }
    }

    /// Stores `value` under `key` and returns the value that was there before.
    /// A new key goes to the end of the order; a known key keeps its place.
    pub fn insert(&mut self, key: String, value: V) -> (r: Option<V>)
        ensures
            final(self)@ == old(self)@.insert(key@, value),
            r == old(self).value_of(key@),
            final(self).keys() == old(self).keys_with(key@),
    {
        proof {
            use_type_invariant(&*self);
        }
        let ghost before = self.entries@;
        let found = self.position(key.as_str());
        let mut entries: Vec<(String, V)> = Vec::new();
        core::mem::swap(&mut self.entries, &mut entries);
        let r = match found {
            Some(i) => {
                proof {
                    lemma_index_of(before, i as int);
                    lemma_remove(before, i as int);
                }
                let gone = entries.remove(i);
                proof {
                    lemma_insert_at(before.remove(i as int), i as int, (key, value));
                    assert(before.remove(i as int).insert(i as int, (key, value)) =~= before.update(
                        i as int,
                        (key, value),
                    ));
                    assert(as_map(before).remove(key@).insert(key@, value) =~= as_map(before).insert(
                        key@,
                        value,
                    ));
                    assert(key_seq(before).remove(i as int).insert(i as int, key@) =~= key_seq(
                        before,
                    ));
                }
                entries.insert(i, (key, value));
                Some(gone.1)
            },
            None => {
                proof {
                    lemma_push(before, (key, value));
                }
                entries.push((key, value));
                None
            },
        };
        core::mem::swap(&mut self.entries, &mut entries);
        r
    }

    /// Takes `key` out of the map and returns the value that was stored under it.
    pub fn remove(&mut self, key: &str) -> (r: Option<V>)
        ensures
            final(self)@ == old(self)@.remove(key@),
            r == old(self).value_of(key@),
            final(self).keys() == old(self).keys_without(key@),
    {
        proof {
            use_type_invariant(&*self);
        }
        let ghost before = self.entries@;
        match self.position(key) {
            Some(i) => {
                proof {
                    lemma_index_of(before, i as int);
                    lemma_remove(before, i as int);
                    lemma_filter_out(before, i as int);
                }
                let mut entries: Vec<(String, V)> = Vec::new();
                core::mem::swap(&mut self.entries, &mut entries);
                let gone = entries.remove(i);
                core::mem::swap(&mut self.entries, &mut entries);
                Some(gone.1)
            },
            None => {
                proof {
                    assert(as_map(before).remove(key@) =~= as_map(before));
                    assert forall|j: int| 0 <= j < before.len() implies !key_at(before, j, key@) by {}
                    lemma_filter_keeps(before, key@);
                }
                None
            },
        }
    }

    /// The `i`th key in order.
    pub fn key_at(&self, i: usize) -> (k: &String)
        requires
            i < self.keys().len(),
        ensures
            k@ == self.keys()[i as int],
            self@.dom().contains(k@),
    {
        proof {
            use_type_invariant(self);
            lemma_index_of(self.entries@, i as int);
        }
        &self.entries[i].0
    }

    /// The value stored under the `i`th key.
    pub fn value_at(&self, i: usize) -> (v: &V)
        requires
            i < self.keys().len(),
        ensures
            self.value_of(self.keys()[i as int]) == Some(*v),
    {
        proof {
            use_type_invariant(self);
            lemma_index_of(self.entries@, i as int);
        }
        &self.entries[i].1
    }
}

impl StringMap<String> {
    /// A copy of the map: the same keys in the same order, with the same
    /// values.
    pub fn duplicate(&self) -> (r: StringMap<String>)
        ensures
            r@ == self@,
            r.keys() == self.keys(),
    {
        proof {
            use_type_invariant(self);
        }
        let mut entries: Vec<(String, String)> = Vec::new();
        let mut i: usize = 0;
        while i < self.entries.len()
            invariant
                i <= self.entries.len(),
                entries@ == self.entries@.take(i as int),
            decreases self.entries.len() - i,
        {
            entries.push((self.entries[i].0.clone(), self.entries[i].1.clone()));
            assert(entries@ =~= self.entries@.take(i as int + 1));
            i += 1;
        }
        assert(entries@ =~= self.entries@);
        StringMap { entries }
    }
}

/// Filtering a key out of distinct keys removes the one entry that holds it.
proof fn lemma_filter_out<V>(s: Seq<(String, V)>, i: int)
    requires
        keys_distinct(s),
        0 <= i < s.len(),
    ensures
        key_seq(s).filter(other_than(s[i].0@)) == key_seq(s).remove(i),
    decreases s.len(),
{
    let gone = s[i].0@;
    let ks = key_seq(s);
    let t = s.drop_last();
    reveal(Seq::filter);
    assert(ks.drop_last() =~= key_seq(t));
    if i == s.len() - 1 {
        assert forall|j: int| 0 <= j < t.len() implies !key_at(t, j, gone) by {
            assert(t[j] == s[j]);
            assert(s[j].0@ != s[i].0@);
        }
        lemma_filter_keeps(t, gone);
        assert(!other_than(gone)(ks.last()));
        assert(ks.remove(i) =~= ks.drop_last());
    } else {
        assert(keys_distinct(t)) by {
            assert forall|a: int, b: int| 0 <= a < b < t.len() implies (#[trigger] t[a]).0@ != (
            #[trigger] t[b]).0@ by {
                assert(t[a] == s[a]);
                assert(t[b] == s[b]);
            }
        }
        assert(t[i] == s[i]);
        lemma_filter_out(t, i);
        assert(s[i].0@ != s[s.len() - 1].0@);
        assert(other_than(gone)(ks.last()));
        assert(ks.remove(i) =~= key_seq(t).remove(i).push(ks.last()));
    }
}

/// Filtering out a key that no entry holds changes nothing.
proof fn lemma_filter_keeps<V>(s: Seq<(String, V)>, key: Seq<char>)
    requires
        forall|j: int| 0 <= j < s.len() ==> !key_at(s, j, key),
    ensures
        key_seq(s).filter(other_than(key)) == key_seq(s),
    decreases s.len(),
{
    let ks = key_seq(s);
    reveal(Seq::filter);
    if s.len() > 0 {
        let t = s.drop_last();
        assert(ks.drop_last() =~= key_seq(t));
        assert forall|j: int| 0 <= j < t.len() implies !key_at(t, j, key) by {
            assert(t[j] == s[j]);
            assert(!key_at(s, j, key));
        }
        lemma_filter_keeps(t, key);
        assert(!key_at(s, s.len() - 1, key));
        assert(other_than(key)(ks.last()));
        assert(ks =~= key_seq(t).push(ks.last()));
    }
}

} // verus!
