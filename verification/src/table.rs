use vstd::prelude::*;

verus! {

/// Keys whose equality can be decided at run time exactly as `==` decides it
/// in specifications.
pub trait SameKey: Sized {
    /// Whether the two keys are equal.
    fn same_key(&self, other: &Self) -> (r: bool)
        ensures
            r == (*self == *other),
    ;
}

/// No key occurs twice among the entries.
pub open spec fn keys_distinct<K, V>(s: Seq<(K, V)>) -> bool {
    forall|i: int, j: int| 0 <= i < s.len() && 0 <= j < s.len() && i != j ==> (#[trigger] s[i]).0 != (#[trigger] s[j]).0
}

/// Some entry has key `k`.
pub open spec fn has_key<K, V>(s: Seq<(K, V)>, k: K) -> bool {
    exists|i: int| 0 <= i < s.len() && (#[trigger] s[i]).0 == k
}

/// The map that a list of entries with distinct keys stands for.
pub open spec fn entries_map<K, V>(s: Seq<(K, V)>) -> Map<K, V> {
    Map::new(
        |k: K| has_key(s, k),
        |k: K| s[choose|i: int| 0 <= i < s.len() && (#[trigger] s[i]).0 == k].1,
    )
}

/// The entry at `i` is what the map holds for its key.
pub proof fn lemma_entries_map_at<K, V>(s: Seq<(K, V)>, i: int)
    requires
        keys_distinct(s),
        0 <= i < s.len(),
    ensures
        entries_map(s).contains_key(s[i].0),
        entries_map(s)[s[i].0] == s[i].1,
{
    assert(has_key(s, s[i].0));
    let c = choose|j: int| 0 <= j < s.len() && (#[trigger] s[j]).0 == s[i].0;
    assert(s[c].0 == s[i].0);
}

/// Appending an entry with a new key adds that key to the map.
pub proof fn lemma_entries_map_push<K, V>(s: Seq<(K, V)>, k: K, v: V)
    requires
        keys_distinct(s),
        !has_key(s, k),
    ensures
        keys_distinct(s.push((k, v))),
        entries_map(s.push((k, v))) == entries_map(s).insert(k, v),
{
    let t = s.push((k, v));
    assert forall|i: int, j: int| 0 <= i < t.len() && 0 <= j < t.len() && i != j implies (#[trigger] t[i]).0
        != (#[trigger] t[j]).0 by {
        if i < s.len() && j < s.len() {
            assert(t[i] == s[i] && t[j] == s[j]);
        } else if i < s.len() {
            assert(t[i] == s[i]);
        } else {
            assert(t[j] == s[j]);
        }
    }
    assert forall|q: K| has_key(t, q) == (has_key(s, q) || q == k) by {
        if has_key(t, q) {
            let c = choose|i: int| 0 <= i < t.len() && (#[trigger] t[i]).0 == q;
            if c < s.len() {
                assert(s[c] == t[c]);
            }
        }
        if has_key(s, q) {
            let c = choose|i: int| 0 <= i < s.len() && (#[trigger] s[i]).0 == q;
            assert(t[c] == s[c]);
        }
        if q == k {
            assert(t[s.len() as int].0 == k);
        }
    }
    assert forall|q: K| #[trigger] entries_map(t).contains_key(q) implies entries_map(t)[q] == entries_map(
        s,
    ).insert(k, v)[q] by {
        if q == k {
            lemma_entries_map_at(t, s.len() as int);
        } else {
            let c = choose|i: int| 0 <= i < s.len() && (#[trigger] s[i]).0 == q;
            assert(t[c] == s[c]);
            lemma_entries_map_at(t, c);
            lemma_entries_map_at(s, c);
        }
    }
    assert(entries_map(t) =~= entries_map(s).insert(k, v));
}

/// Replacing the value of the entry at `i` replaces the value of its key.
pub proof fn lemma_entries_map_update<K, V>(s: Seq<(K, V)>, i: int, v: V)
    requires
        keys_distinct(s),
        0 <= i < s.len(),
    ensures
        keys_distinct(s.update(i, (s[i].0, v))),
        entries_map(s.update(i, (s[i].0, v))) == entries_map(s).insert(s[i].0, v),
{
    let k = s[i].0;
    let t = s.update(i, (k, v));
    assert forall|a: int, b: int| 0 <= a < t.len() && 0 <= b < t.len() && a != b implies (#[trigger] t[a]).0
        != (#[trigger] t[b]).0 by {
        assert(t[a].0 == s[a].0 && t[b].0 == s[b].0);
    }
    assert forall|q: K| has_key(t, q) == has_key(s, q) by {
        if has_key(t, q) {
            let c = choose|j: int| 0 <= j < t.len() && (#[trigger] t[j]).0 == q;
            assert(s[c].0 == q);
        }
        if has_key(s, q) {
            let c = choose|j: int| 0 <= j < s.len() && (#[trigger] s[j]).0 == q;
            assert(t[c].0 == q);
        }
    }
    assert forall|q: K| #[trigger] entries_map(t).contains_key(q) implies entries_map(t)[q] == entries_map(
        s,
    ).insert(k, v)[q] by {
        let c = choose|j: int| 0 <= j < s.len() && (#[trigger] s[j]).0 == q;
        lemma_entries_map_at(t, c);
        lemma_entries_map_at(s, c);
    }
    assert(entries_map(t) =~= entries_map(s).insert(k, v));
}

/// Removing the entry at `i` removes its key from the map.
pub proof fn lemma_entries_map_remove<K, V>(s: Seq<(K, V)>, i: int)
    requires
        keys_distinct(s),
        0 <= i < s.len(),
    ensures
        keys_distinct(s.remove(i)),
        entries_map(s.remove(i)) == entries_map(s).remove(s[i].0),
{
    let k = s[i].0;
    let t = s.remove(i);
    assert forall|a: int| 0 <= a < t.len() implies #[trigger] t[a] == s[if a < i { a } else { a + 1 }] by {
    }
    assert forall|a: int, b: int| 0 <= a < t.len() && 0 <= b < t.len() && a != b implies (#[trigger] t[a]).0
        != (#[trigger] t[b]).0 by {
        assert(t[a] == s[if a < i { a } else { a + 1 }]);
        assert(t[b] == s[if b < i { b } else { b + 1 }]);
    }
    assert forall|q: K| has_key(t, q) == (has_key(s, q) && q != k) by {
        if has_key(t, q) {
            let c = choose|j: int| 0 <= j < t.len() && (#[trigger] t[j]).0 == q;
            let d = if c < i { c } else { c + 1 };
            assert(t[c] == s[d]);
            assert(d != i);
        }
        if has_key(s, q) && q != k {
            let c = choose|j: int| 0 <= j < s.len() && (#[trigger] s[j]).0 == q;
            assert(c != i);
            let d = if c < i { c } else { c - 1 };
            assert(t[d] == s[c]);
        }
    }
    assert forall|q: K| #[trigger] entries_map(t).contains_key(q) implies entries_map(t)[q] == entries_map(
        s,
    ).remove(k)[q] by {
        let c = choose|j: int| 0 <= j < t.len() && (#[trigger] t[j]).0 == q;
        let d = if c < i { c } else { c + 1 };
        assert(t[c] == s[d]);
        lemma_entries_map_at(t, c);
        lemma_entries_map_at(s, d);
    }
    assert(entries_map(t) =~= entries_map(s).remove(k));
}

/// A map kept as a list of entries with distinct keys, searched in order.
pub struct Table<K, V> {
    entries: Vec<(K, V)>,
}

impl<K: SameKey, V> Table<K, V> {
    /// The map the table stands for.
    pub closed spec fn map(&self) -> Map<K, V> {
        entries_map(self.entries@)
    }

    /// The entries, in the order they are searched.
    pub closed spec fn entry_seq(&self) -> Seq<(K, V)> {
        self.entries@
    }

    /// No key occurs twice.
    pub closed spec fn wf(&self) -> bool {
        keys_distinct(self.entries@)
    }

    /// A table that holds nothing.
    pub fn new() -> (r: Self)
        ensures
            r.wf(),
            r.map() == Map::<K, V>::empty(),
    {
        let r = Table { entries: Vec::new() };
        assert(r.map() =~= Map::<K, V>::empty());
        r
    }

    /// The position of the entry with key `k`, if any.
    fn find(&self, k: &K) -> (r: Option<usize>)
        requires
            self.wf(),
        ensures
            r is None ==> !self.map().contains_key(*k),
            r matches Some(i) ==> i < self.entries@.len() && self.entries@[i as int].0 == *k,
    {
        let mut i: usize = 0;
        while i < self.entries.len()
            invariant
                i <= self.entries@.len(),
                forall|j: int| 0 <= j < i ==> (#[trigger] self.entries@[j]).0 != *k,
            decreases self.entries@.len() - i,
        {
            if self.entries[i].0.same_key(k) {
                return Some(i);
            }
            i = i + 1;
        }
        None
    }

    /// Whether some entry has key `k`.
    pub fn contains_key(&self, k: &K) -> (r: bool)
        requires
            self.wf(),
        ensures
            r == self.map().contains_key(*k),
    {
        match self.find(k) {
            Some(i) => {
                proof {
                    lemma_entries_map_at(self.entries@, i as int);
                }
                true
            },
            None => false,
        }
    }

    /// The value for `k`, if any.
    pub fn get(&self, k: &K) -> (r: Option<&V>)
        requires
            self.wf(),
        ensures
            r == (if self.map().contains_key(*k) {
                Some(&self.map()[*k])
            } else {
                None::<&V>
            }),
    {
        match self.find(k) {
            Some(i) => {
                proof {
                    lemma_entries_map_at(self.entries@, i as int);
                }
                Some(&self.entries[i].1)
            },
            None => None,
        }
    }

    /// Sets the value for `k`, giving back the value it replaced, if any.
    pub fn insert(&mut self, k: K, v: V) -> (r: Option<V>)
        requires
            old(self).wf(),
        ensures
            final(self).wf(),
            final(self).map() == old(self).map().insert(k, v),
            r == (if old(self).map().contains_key(k) {
                Some(old(self).map()[k])
            } else {
                None::<V>
            }),
    {
        match self.find(&k) {
            Some(i) => {
                let ghost s = self.entries@;
                proof {
                    lemma_entries_map_at(s, i as int);
                    lemma_entries_map_update(s, i as int, v);
                }
                let (old_k, old_v) = self.entries.remove(i);
                self.entries.insert(i, (old_k, v));
                assert(self.entries@ == s.update(i as int, (s[i as int].0, v)));
                Some(old_v)
            },
            None => {
                proof {
                    if has_key(self.entries@, k) {
                        assert(self.map().contains_key(k));
                    }
                    lemma_entries_map_push(self.entries@, k, v);
                }
                self.entries.push((k, v));
                None
            },
        }
    }

    /// Takes the value for `k` out of the table, if any.
    pub fn remove(&mut self, k: &K) -> (r: Option<V>)
        requires
            old(self).wf(),
        ensures
            final(self).wf(),
            final(self).map() == old(self).map().remove(*k),
            r == (if old(self).map().contains_key(*k) {
                Some(old(self).map()[*k])
            } else {
                None::<V>
            }),
    {
        match self.find(k) {
            Some(i) => {
                proof {
                    lemma_entries_map_at(self.entries@, i as int);
                    lemma_entries_map_remove(self.entries@, i as int);
                }
                let (_, old_v) = self.entries.remove(i);
                Some(old_v)
            },
            None => {
                assert(old(self).map().remove(*k) =~= old(self).map());
                None
            },
        }
    }
}

} // verus!
