//! An insertion-ordered map keyed by strings, used wherever the protocol
//! carries a JSON object or a string-to-value table.
use vstd::prelude::*;

verus! {

/// A map from string keys to values that keeps entries in insertion order.
/// No key occurs twice.
#[derive(Debug, Clone)]
pub struct StrMap<V> {
    entries: Vec<(String, V)>,
}

/// No key occurs twice among the entries.
pub open spec fn distinct_keys<V>(entries: Seq<(String, V)>) -> bool {
    forall|i: int, j: int|
        0 <= i < entries.len() && 0 <= j < entries.len() && i != j ==> #[trigger] entries[i].0@
            != #[trigger] entries[j].0@
}

/// Whether some entry has the key `k`.
pub open spec fn has_key<V>(entries: Seq<(String, V)>, k: Seq<char>) -> bool {
    exists|i: int| 0 <= i < entries.len() && #[trigger] entries[i].0@ == k
}

/// The value stored under `k`, if any.
pub open spec fn lookup<V>(entries: Seq<(String, V)>, k: Seq<char>) -> Option<V> {
    if has_key(entries, k) {
        Some(entries[choose|i: int| 0 <= i < entries.len() && #[trigger] entries[i].0@ == k].1)
    } else {
        None
    }
}

/// With distinct keys, the value under the key of entry `i` is that entry's value.
pub proof fn lemma_lookup_at<V>(entries: Seq<(String, V)>, i: int)
    requires
        distinct_keys(entries),
        0 <= i < entries.len(),
    ensures
        lookup(entries, entries[i].0@) == Some(entries[i].1),
{
    let k = entries[i].0@;
    assert(has_key(entries, k));
    let j = choose|j: int| 0 <= j < entries.len() && #[trigger] entries[j].0@ == k;
    assert(j == i);
}

/// With distinct keys, looking up in a sequence is looking at its first entry,
/// then in the rest.
pub proof fn lemma_lookup_first<V>(s: Seq<(String, V)>, k: Seq<char>)
    requires
        distinct_keys(s),
        s.len() > 0,
    ensures
        has_key(s, k) == (s[0].0@ == k || has_key(s.drop_first(), k)),
        lookup(s, k) == if s[0].0@ == k {
            Some(s[0].1)
        } else {
            lookup(s.drop_first(), k)
        },
{
    let t = s.drop_first();
    assert(distinct_keys(t)) by {
        assert forall|i: int, j: int|
            0 <= i < t.len() && 0 <= j < t.len() && i != j implies #[trigger] t[i].0@
            != #[trigger] t[j].0@ by {
            assert(t[i] == s[i + 1]);
            assert(t[j] == s[j + 1]);
        }
    }
    if has_key(t, k) {
        let j = choose|j: int| 0 <= j < t.len() && #[trigger] t[j].0@ == k;
        assert(s[j + 1] == t[j]);
        assert(has_key(s, k));
    }
    if has_key(s, k) {
        let j = choose|j: int| 0 <= j < s.len() && #[trigger] s[j].0@ == k;
        if j > 0 {
            assert(t[j - 1] == s[j]);
            assert(has_key(t, k));
        }
    }
    if s[0].0@ == k {
        lemma_lookup_at(s, 0);
    } else if has_key(s, k) {
        let j = choose|j: int| 0 <= j < s.len() && #[trigger] s[j].0@ == k;
        assert(j != 0);
        lemma_lookup_at(s, j);
        assert(t[j - 1] == s[j]);
        lemma_lookup_at(t, j - 1);
    }
}

impl<V> StrMap<V> {
    /// The entries in insertion order.
    pub closed spec fn entries(self) -> Seq<(String, V)> {
        self.entries@
    }

    /// Well-formedness: keys are distinct.
    pub open spec fn wf(self) -> bool {
        distinct_keys(self.entries())
    }

    /// The value stored under the key `k`, if any.
    pub open spec fn spec_get(self, k: Seq<char>) -> Option<V> {
        lookup(self.entries(), k)
    }

    /// Whether the key `k` is present.
    pub open spec fn contains(self, k: Seq<char>) -> bool {
        has_key(self.entries(), k)
    }

    /// Creates an empty map.
    pub fn new() -> (m: Self)
        ensures
            m.wf(),
            m.entries() == Seq::<(String, V)>::empty(),
    {
        StrMap { entries: Vec::new() }
    }

    /// Number of entries.
    pub fn len(&self) -> (n: usize)
        ensures
            n == self.entries().len(),
    {
        self.entries.len()
    }

    /// Whether the map has no entries.
    pub fn is_empty(&self) -> (b: bool)
        ensures
            b == (self.entries().len() == 0),
    {
        self.entries.len() == 0
    }

    /// The key of the entry at position `i`.
    pub fn key_at(&self, i: usize) -> (k: &String)
        requires
            i < self.entries().len(),
        ensures
            *k == self.entries()[i as int].0,
    {
        &self.entries[i].0
    }

    /// The value of the entry at position `i`.
    pub fn value_at(&self, i: usize) -> (v: &V)
        requires
            i < self.entries().len(),
        ensures
            *v == self.entries()[i as int].1,
    {
        &self.entries[i].1
    }

    /// Position of a key, if present.
    pub fn position(&self, key: &str) -> (r: Option<usize>)
        requires
            self.wf(),
        ensures
            match r {
                Some(i) => i < self.entries().len() && self.entries()[i as int].0@ == key@,
                None => !self.contains(key@),
            },
    {
        let k: String = key.to_string();
        let mut i: usize = 0;
        while i < self.entries.len()
            invariant
                i <= self.entries@.len(),
                k@ == key@,
                forall|j: int| 0 <= j < i ==> #[trigger] self.entries@[j].0@ != key@,
            decreases self.entries@.len() - i,
        {
            if self.entries[i].0 == k {
                return Some(i);
            }
            i = i + 1;
        }
        None
    }

    /// Looks up the value stored under `key`.
    pub fn get(&self, key: &str) -> (r: Option<&V>)
        requires
            self.wf(),
        ensures
            match r {
                Some(v) => self.spec_get(key@) == Some(*v),
                None => self.spec_get(key@) is None,
            },
    {
        match self.position(key) {
            Some(i) => {
                proof {
                    lemma_lookup_at(self.entries(), i as int);
                }
                Some(&self.entries[i].1)
            },
            None => None,
        }
    }

    /// Whether `key` is present.
    pub fn contains_key(&self, key: &str) -> (b: bool)
        requires
            self.wf(),
        ensures
            b == self.contains(key@),
    {
        self.position(key).is_some()
    }

    /// Inserts `value` under `key`, replacing any value already stored there.
    /// A new key goes to the end; an existing key keeps its position.
    pub fn insert(&mut self, key: String, value: V)
        requires
            old(self).wf(),
        ensures
            final(self).wf(),
            old(self).contains(key@) ==> exists|i: int|
                0 <= i < old(self).entries().len() && old(self).entries()[i].0@ == key@
                    && final(self).entries() == old(self).entries().update(i, (key, value)),
            !old(self).contains(key@) ==> final(self).entries() == old(self).entries().push(
                (key, value),
            ),
            final(self).spec_get(key@) == Some(value),
            forall|other: Seq<char>|
                other != key@ ==> #[trigger] final(self).spec_get(other) == old(self).spec_get(
                    other,
                ),
    {
        let ghost k = key;
        let ghost v = value;
        match self.position(key.as_str()) {
            Some(i) => {
                self.entries.set(i, (key, value));
                proof {
                    let e = self.entries@;
                    assert forall|a: int, b: int|
                        0 <= a < e.len() && 0 <= b < e.len() && a != b implies #[trigger] e[a].0@
                        != #[trigger] e[b].0@ by {
                        if a != i && b != i {
                            assert(old(self).entries@[a] == e[a]);
                            assert(old(self).entries@[b] == e[b]);
                        } else if a == i {
                            assert(old(self).entries@[b] == e[b]);
                        } else {
                            assert(old(self).entries@[a] == e[a]);
                        }
                    }
                }
            },
            None => {
                self.entries.push((key, value));
                proof {
                    let e = self.entries@;
                    let n = old(self).entries@.len();
                    assert forall|a: int, b: int|
                        0 <= a < e.len() && 0 <= b < e.len() && a != b implies #[trigger] e[a].0@
                        != #[trigger] e[b].0@ by {
                        if a < n && b < n {
                            assert(old(self).entries@[a] == e[a]);
                            assert(old(self).entries@[b] == e[b]);
                        } else if a == n {
                            assert(old(self).entries@[b] == e[b]);
                        } else {
                            assert(old(self).entries@[a] == e[a]);
                        }
                    }
                }
            },
        }
        proof {
            law_insert_then_get(*old(self), *self, k, v);
        }
    }

    /// Removes the entry stored under `key` and returns its value, if any.
    /// The other entries keep their order.
    pub fn remove(&mut self, key: &str) -> (r: Option<V>)
        requires
            old(self).wf(),
        ensures
            final(self).wf(),
            r == old(self).spec_get(key@),
            !final(self).contains(key@),
            forall|other: Seq<char>|
                other != key@ ==> #[trigger] final(self).spec_get(other) == old(self).spec_get(
                    other,
                ),
    {
        match self.position(key) {
            Some(i) => {
                proof {
                    lemma_lookup_at(self.entries@, i as int);
                }
                let ghost e0 = self.entries@;
                let (_, v) = self.entries.remove(i);
                proof {
                    let e1 = self.entries@;
                    assert(e1 =~= e0.remove(i as int));
                    assert forall|a: int, b: int|
                        0 <= a < e1.len() && 0 <= b < e1.len() && a != b implies #[trigger] e1[a].0@
                        != #[trigger] e1[b].0@ by {
                        let a0 = if a < i { a } else { a + 1 };
                        let b0 = if b < i { b } else { b + 1 };
                        assert(e1[a] == e0[a0]);
                        assert(e1[b] == e0[b0]);
                    }
                    assert forall|j: int| 0 <= j < e1.len() implies #[trigger] e1[j].0@ != key@ by {
                        let j0 = if j < i { j } else { j + 1 };
                        assert(e1[j] == e0[j0]);
                    }
                    assert forall|other: Seq<char>| other != key@ implies #[trigger] lookup(e1, other)
                        == lookup(e0, other) by {
                        if has_key(e0, other) {
                            let j = choose|j: int| 0 <= j < e0.len() && #[trigger] e0[j].0@ == other;
                            lemma_lookup_at(e0, j);
                            assert(j != i);
                            let j1 = if j < i { j } else { j - 1 };
                            assert(e1[j1] == e0[j]);
                            lemma_lookup_at(e1, j1);
                        } else {
                            assert forall|j: int| 0 <= j < e1.len() implies #[trigger] e1[j].0@ != other by {
                                let j0 = if j < i { j } else { j + 1 };
                                assert(e1[j] == e0[j0]);
                            }
                        }
                    }
                }
                Some(v)
            },
            None => None,
        }
    }

    /// Inserts every entry of `other`; where both hold a key, `other`'s value wins.
    pub fn extend(&mut self, other: StrMap<V>)
        requires
            old(self).wf(),
            other.wf(),
        ensures
            final(self).wf(),
            forall|k: Seq<char>|
                #[trigger] final(self).spec_get(k) == if other.contains(k) {
                    other.spec_get(k)
                } else {
                    old(self).spec_get(k)
                },
    {
        let ghost all = other.entries@;
        let ghost start = *self;
        let mut es = other.entries;
        while es.len() > 0
            invariant
                self.wf(),
                distinct_keys(all),
                es@ == all.take(es@.len() as int),
                es@.len() <= all.len(),
                forall|k: Seq<char>|
                    #[trigger] self.spec_get(k) == if has_key(all.skip(es@.len() as int), k) {
                        lookup(all.skip(es@.len() as int), k)
                    } else {
                        start.spec_get(k)
                    },
            decreases es@.len(),
        {
            let ghost n = es@.len() as int;
            let (key, value) = es.pop().unwrap();
            proof {
                assert(es@ =~= all.take(n - 1));
                let s = all.skip(n - 1);
                assert(s[0] == all[n - 1]);
                assert(s.drop_first() =~= all.skip(n));
                assert(distinct_keys(s)) by {
                    assert forall|i: int, j: int|
                        0 <= i < s.len() && 0 <= j < s.len() && i != j implies #[trigger] s[i].0@
                        != #[trigger] s[j].0@ by {
                        assert(s[i] == all[i + n - 1]);
                        assert(s[j] == all[j + n - 1]);
                    }
                }
            }
            let ghost before = *self;
            self.insert(key, value);
            proof {
                let s = all.skip(n - 1);
                assert forall|k: Seq<char>|
                    #[trigger] self.spec_get(k) == if has_key(s, k) {
                        lookup(s, k)
                    } else {
                        start.spec_get(k)
                    } by {
                    lemma_lookup_first(s, k);
                    if k != key@ {
                        assert(self.spec_get(k) == before.spec_get(k));
                    }
                }
            }
        }
        proof {
            assert(all.skip(0) =~= all);
        }
    }

    /// Consumes the map and returns its entries in order.
    pub fn into_entries(self) -> (v: Vec<(String, V)>)
        ensures
            v@ == self.entries(),
    {
        self.entries
    }
}

/// The value under `k` in an optional map; an absent map holds nothing.
pub open spec fn opt_get<V>(m: Option<StrMap<V>>, k: Seq<char>) -> Option<V> {
    match m {
        Some(m) => m.spec_get(k),
        None => None,
    }
}

/// Whether an optional map is absent or well formed.
pub open spec fn opt_wf<V>(m: Option<StrMap<V>>) -> bool {
    match m {
        Some(m) => m.wf(),
        None => true,
    }
}

/// Inserts `value` under `key` into an optional map, creating the map when
/// it is absent.
pub fn insert_into<V>(m: Option<StrMap<V>>, key: &str, value: V) -> (r: StrMap<V>)
    requires
        opt_wf(m),
    ensures
        r.wf(),
        r.spec_get(key@) == Some(value),
        forall|k: Seq<char>| k != key@ ==> #[trigger] r.spec_get(k) == opt_get(m, k),
{
    let mut map = match m {
        Some(m) => m,
        None => StrMap::new(),
    };
    map.insert(key.to_string(), value);
    map
}

/// Law: after `insert(k, v)`, looking up `k` gives `v`, and every other key
/// keeps the value it had.
pub proof fn law_insert_then_get<V>(before: StrMap<V>, after: StrMap<V>, k: String, v: V)
    requires
        before.wf(),
        after.wf(),
        before.contains(k@) ==> exists|i: int|
            0 <= i < before.entries().len() && before.entries()[i].0@ == k@ && after.entries()
                == before.entries().update(i, (k, v)),
        !before.contains(k@) ==> after.entries() == before.entries().push((k, v)),
    ensures
        after.spec_get(k@) == Some(v),
        forall|other: Seq<char>| other != k@ ==> after.spec_get(other) == before.spec_get(other),
{
    let e0 = before.entries();
    let e1 = after.entries();
    if before.contains(k@) {
        let i = choose|i: int|
            0 <= i < e0.len() && e0[i].0@ == k@ && e1 == e0.update(i, (k, v));
        lemma_lookup_at(e1, i);
        assert forall|other: Seq<char>| other != k@ implies after.spec_get(other)
            == before.spec_get(other) by {
            if has_key(e0, other) {
                let j = choose|j: int| 0 <= j < e0.len() && #[trigger] e0[j].0@ == other;
                lemma_lookup_at(e0, j);
                assert(e1[j] == e0[j]);
                lemma_lookup_at(e1, j);
            } else {
                assert forall|j: int| 0 <= j < e1.len() implies #[trigger] e1[j].0@ != other by {
                    if j != i {
                        assert(e1[j] == e0[j]);
                    }
                }
            }
        }
    } else {
        let n = e0.len() as int;
        lemma_lookup_at(e1, n);
        assert forall|other: Seq<char>| other != k@ implies after.spec_get(other)
            == before.spec_get(other) by {
            if has_key(e0, other) {
                let j = choose|j: int| 0 <= j < e0.len() && #[trigger] e0[j].0@ == other;
                lemma_lookup_at(e0, j);
                assert(e1[j] == e0[j]);
                lemma_lookup_at(e1, j);
            } else {
                assert forall|j: int| 0 <= j < e1.len() implies #[trigger] e1[j].0@ != other by {
                    if j < n {
                        assert(e1[j] == e0[j]);
                    }
                }
            }
        }
    }
}

} // verus!
