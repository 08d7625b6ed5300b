use vstd::prelude::*;
use crate::address::Addr;

verus! {

/// No two entries share a key.
pub open spec fn keys_distinct<V>(s: Seq<(Addr, V)>) -> bool {
    forall|i: int, j: int|
        0 <= i < s.len() && 0 <= j < s.len() && i != j ==> #[trigger] s[i].0 != #[trigger] s[j].0
}

/// Some entry has key `k`.
pub open spec fn has_key<V>(s: Seq<(Addr, V)>, k: Addr) -> bool {
    exists|i: int| 0 <= i < s.len() && #[trigger] s[i].0 == k
}

/// The position of key `k`.
pub open spec fn key_index<V>(s: Seq<(Addr, V)>, k: Addr) -> int {
    choose|i: int| 0 <= i < s.len() && #[trigger] s[i].0 == k
}

/// The map that an association list with distinct keys stands for.
pub open spec fn seq_to_map<V>(s: Seq<(Addr, V)>) -> Map<Addr, V> {
    Map::new(|k: Addr| has_key(s, k), |k: Addr| s[key_index(s, k)].1)
}

pub proof fn lemma_key_index<V>(s: Seq<(Addr, V)>, i: int)
    requires
        keys_distinct(s),
        0 <= i < s.len(),
    ensures
        key_index(s, s[i].0) == i,
{
    let k = s[i].0;
    assert(has_key(s, k));
    let j = key_index(s, k);
    assert(s[j].0 == k);
}

pub proof fn lemma_map_at<V>(s: Seq<(Addr, V)>, i: int)
    requires
        keys_distinct(s),
        0 <= i < s.len(),
    ensures
        seq_to_map(s).contains_key(s[i].0),
        seq_to_map(s)[s[i].0] == s[i].1,
{
    lemma_key_index(s, i);
}

pub proof fn lemma_map_push<V>(s: Seq<(Addr, V)>, k: Addr, v: V)
    requires
        keys_distinct(s),
        !has_key(s, k),
    ensures
        keys_distinct(s.push((k, v))),
        seq_to_map(s.push((k, v))) =~= seq_to_map(s).insert(k, v),
{
    let t = s.push((k, v));
    assert forall|i: int, j: int|
        0 <= i < t.len() && 0 <= j < t.len() && i != j implies #[trigger] t[i].0 != #[trigger] t[j].0 by {
        if i < s.len() && j < s.len() {
            assert(t[i] == s[i] && t[j] == s[j]);
        } else if i < s.len() {
            assert(t[i] == s[i]);
        } else {
            assert(t[j] == s[j]);
        }
    }
    assert forall|x: Addr| #[trigger] seq_to_map(t).contains_key(x) == seq_to_map(s).insert(k, v).contains_key(x) by {
        if has_key(s, x) {
            let i = choose|i: int| 0 <= i < s.len() && #[trigger] s[i].0 == x;
            assert(t[i] == s[i]);
        }
        if x == k {
            assert(t[s.len() as int].0 == k);
        }
        if has_key(t, x) && x != k {
            let i = choose|i: int| 0 <= i < t.len() && #[trigger] t[i].0 == x;
            assert(i < s.len());
            assert(s[i] == t[i]);
        }
    }
    assert forall|x: Addr| #[trigger] seq_to_map(t).contains_key(x) implies seq_to_map(t)[x] == seq_to_map(s).insert(k, v)[x] by {
        let i = choose|i: int| 0 <= i < t.len() && #[trigger] t[i].0 == x;
        lemma_map_at(t, i);
        if i < s.len() {
            assert(s[i] == t[i]);
            lemma_map_at(s, i);
        }
    }
}

pub proof fn lemma_map_update<V>(s: Seq<(Addr, V)>, i: int, v: V)
    requires
        keys_distinct(s),
        0 <= i < s.len(),
    ensures
        keys_distinct(s.update(i, (s[i].0, v))),
        seq_to_map(s.update(i, (s[i].0, v))) =~= seq_to_map(s).insert(s[i].0, v),
{
    let k = s[i].0;
    let t = s.update(i, (k, v));
    assert forall|a: int, b: int|
        0 <= a < t.len() && 0 <= b < t.len() && a != b implies #[trigger] t[a].0 != #[trigger] t[b].0 by {
        assert(t[a].0 == s[a].0 && t[b].0 == s[b].0);
    }
    lemma_map_at(s, i);
    assert forall|x: Addr| #[trigger] seq_to_map(t).contains_key(x) == seq_to_map(s).insert(k, v).contains_key(x) by {
        if has_key(s, x) {
            let j = choose|j: int| 0 <= j < s.len() && #[trigger] s[j].0 == x;
            assert(t[j].0 == x);
        }
        if has_key(t, x) {
            let j = choose|j: int| 0 <= j < t.len() && #[trigger] t[j].0 == x;
            assert(s[j].0 == x);
        }
    }
    assert forall|x: Addr| #[trigger] seq_to_map(t).contains_key(x) implies seq_to_map(t)[x] == seq_to_map(s).insert(k, v)[x] by {
        let j = choose|j: int| 0 <= j < t.len() && #[trigger] t[j].0 == x;
        lemma_map_at(t, j);
        if j != i {
            assert(s[j] == t[j]);
            lemma_map_at(s, j);
        }
    }
}

pub proof fn lemma_map_remove<V>(s: Seq<(Addr, V)>, i: int)
    requires
        keys_distinct(s),
        0 <= i < s.len(),
    ensures
        keys_distinct(s.remove(i)),
        seq_to_map(s.remove(i)) =~= seq_to_map(s).remove(s[i].0),
{
    let k = s[i].0;
    let t = s.remove(i);
    assert forall|a: int| 0 <= a < t.len() implies #[trigger] t[a] == (if a < i { s[a] } else { s[a + 1] }) by {}
    assert forall|a: int, b: int|
        0 <= a < t.len() && 0 <= b < t.len() && a != b implies #[trigger] t[a].0 != #[trigger] t[b].0 by {
        let sa = if a < i { a } else { a + 1 };
        let sb = if b < i { b } else { b + 1 };
        assert(t[a] == s[sa] && t[b] == s[sb]);
    }
    assert forall|x: Addr| #[trigger] seq_to_map(t).contains_key(x) == seq_to_map(s).remove(k).contains_key(x) by {
        if has_key(s, x) && x != k {
            let j = choose|j: int| 0 <= j < s.len() && #[trigger] s[j].0 == x;
            assert(j != i);
            let tj = if j < i { j } else { j - 1 };
            assert(t[tj] == s[j]);
        }
        if has_key(t, x) {
            let j = choose|j: int| 0 <= j < t.len() && #[trigger] t[j].0 == x;
            let sj = if j < i { j } else { j + 1 };
            assert(s[sj] == t[j]);
            assert(sj != i);
        }
    }
    assert forall|x: Addr| #[trigger] seq_to_map(t).contains_key(x) implies seq_to_map(t)[x] == seq_to_map(s).remove(k)[x] by {
        let j = choose|j: int| 0 <= j < t.len() && #[trigger] t[j].0 == x;
        lemma_map_at(t, j);
        let sj = if j < i { j } else { j + 1 };
        assert(s[sj] == t[j]);
        lemma_map_at(s, sj);
    }
}

/// Per-address records kept in the order in which they were added, with no
/// address listed twice.
pub struct Registry<V> {
    entries: Vec<(Addr, V)>,
}

impl<V: Copy> Registry<V> {
    /// The entries, oldest first.
    pub closed spec fn entries(self) -> Seq<(Addr, V)> {
        self.entries@
    }

    pub open spec fn wf(self) -> bool {
        keys_distinct(self.entries())
    }

    /// The record of each registered address.
    pub open spec fn map(self) -> Map<Addr, V> {
        seq_to_map(self.entries())
    }

    pub fn new() -> (r: Self)
        ensures
            r.wf(),
            r.entries() == Seq::<(Addr, V)>::empty(),
            r.map() == Map::<Addr, V>::empty(),
    {
        let r = Registry { entries: Vec::new() };
        assert(r.map() =~= Map::<Addr, V>::empty());
        r
    }

    /// Builds a registry from entries in the given order; `None` when an
    /// address occurs twice.
    pub fn from_entries(entries: Vec<(Addr, V)>) -> (r: Option<Self>)
        ensures
            r is Some <==> keys_distinct(entries@),
            r matches Some(reg) ==> reg.entries() == entries@,
    {
        let n = entries.len();
        let mut i: usize = 0;
        while i < n
            invariant
                n == entries.len(),
                i <= n,
                forall|a: int, b: int|
                    0 <= a < i && 0 <= b < n && a != b ==> #[trigger] entries@[a].0 != #[trigger] entries@[b].0,
            decreases n - i,
        {
            let mut j: usize = 0;
            while j < n
                invariant
                    n == entries.len(),
                    i < n,
                    j <= n,
                    forall|a: int, b: int|
                        0 <= a < i && 0 <= b < n && a != b ==> #[trigger] entries@[a].0 != #[trigger] entries@[b].0,
                    forall|b: int| 0 <= b < j && b != i ==> entries@[i as int].0 != #[trigger] entries@[b].0,
                decreases n - j,
            {
                if j != i && entries[i].0 == entries[j].0 {
                    assert(!keys_distinct(entries@)) by {
                        assert(entries@[i as int].0 == entries@[j as int].0);
                    }
                    return None;
                }
                j += 1;
            }
            i += 1;
        }
        Some(Registry { entries })
    }

    pub fn len(&self) -> (r: usize)
        ensures
            r == self.entries().len(),
    {
        self.entries.len()
    }

    /// The entry at position `i`.
    pub fn entry(&self, i: usize) -> (r: (Addr, V))
        requires
            i < self.entries().len(),
        ensures
            r == self.entries()[i as int],
    {
        self.entries[i]
    }

    /// The position of `key`, if it is registered.
    pub fn find(&self, key: &Addr) -> (r: Option<usize>)
        requires
            self.wf(),
        ensures
            r is None <==> !self.map().contains_key(*key),
            r matches Some(i) ==> i < self.entries().len() && self.entries()[i as int].0 == *key,
    {
        let n = self.entries.len();
        let mut i: usize = 0;
        while i < n
            invariant
                n == self.entries@.len(),
                i <= n,
                forall|j: int| 0 <= j < i ==> #[trigger] self.entries@[j].0 != *key,
            decreases n - i,
        {
            if self.entries[i].0 == *key {
                return Some(i);
            }
            i += 1;
        }
        None
    }

    pub fn get(&self, key: &Addr) -> (r: Option<V>)
        requires
            self.wf(),
        ensures
            r == (if self.map().contains_key(*key) { Some(self.map()[*key]) } else { None::<V> }),
    {
        match self.find(key) {
            Some(i) => {
                proof { lemma_map_at(self.entries(), i as int); }
                Some(self.entries[i].1)
            },
            None => None,
        }
    }

    pub fn contains(&self, key: &Addr) -> (r: bool)
        requires
            self.wf(),
        ensures
            r == self.map().contains_key(*key),
    {
        self.find(key).is_some()
    }

    /// Appends a record for an address that is not yet registered.
    pub fn insert_new(&mut self, key: Addr, value: V)
        requires
            old(self).wf(),
            !old(self).map().contains_key(key),
        ensures
            final(self).wf(),
            final(self).entries() == old(self).entries().push((key, value)),
            final(self).map() == old(self).map().insert(key, value),
    {
        proof { lemma_map_push(self.entries@, key, value); }
        self.entries.push((key, value));
    }

    /// Replaces the record of a registered address, keeping its position.
    pub fn update(&mut self, key: &Addr, value: V)
        requires
            old(self).wf(),
            old(self).map().contains_key(*key),
        ensures
            final(self).wf(),
            final(self).map() == old(self).map().insert(*key, value),
            final(self).entries() == old(self).entries().update(
                key_index(old(self).entries(), *key),
                (*key, value),
            ),
    {
        let i = self.find(key).unwrap();
        proof {
            lemma_map_update(self.entries@, i as int, value);
            lemma_key_index(self.entries@, i as int);
        }
        self.entries.set(i, (*key, value));
        assert(self.entries@ == old(self).entries@.update(i as int, (*key, value)));
    }

    /// Drops the record of a registered address, keeping the others in order.
    pub fn remove(&mut self, key: &Addr)
        requires
            old(self).wf(),
            old(self).map().contains_key(*key),
        ensures
            final(self).wf(),
            final(self).map() == old(self).map().remove(*key),
            final(self).entries() == old(self).entries().remove(key_index(old(self).entries(), *key)),
    {
        let i = self.find(key).unwrap();
        proof {
            lemma_map_remove(self.entries@, i as int);
            lemma_key_index(self.entries@, i as int);
        }
        self.entries.remove(i);
    }
}

} // verus!
