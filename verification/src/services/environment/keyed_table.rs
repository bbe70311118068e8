use vstd::prelude::*;
use vstd::string::StringExecFns;
use crate::infrastructure::eventbus::manager::same_text;

verus! {

/// Whether no key occurs twice.
pub open spec fn keys_unique<V>(s: Seq<(Seq<char>, V)>) -> bool {
    forall|i: int, j: int| 0 <= i < j < s.len() ==> #[trigger] s[i].0 != #[trigger] s[j].0
}

/// Whether some entry has key `k`.
pub open spec fn has_key<V>(s: Seq<(Seq<char>, V)>, k: Seq<char>) -> bool {
    exists|i: int| 0 <= i < s.len() && #[trigger] s[i].0 == k
}

/// The value stored under `k`, if any.
pub open spec fn lookup<V>(s: Seq<(Seq<char>, V)>, k: Seq<char>) -> Option<V> {
    if has_key(s, k) {
        Some(s[choose|i: int| 0 <= i < s.len() && #[trigger] s[i].0 == k].1)
    } else {
        None
    }
}

/// The entries after storing `v` under `k`: an entry with that key is
/// overwritten in place; otherwise a new entry goes last.
pub open spec fn after_set<V>(s: Seq<(Seq<char>, V)>, k: Seq<char>, v: V) -> Seq<(Seq<char>, V)> {
    if has_key(s, k) {
        s.update(choose|i: int| 0 <= i < s.len() && #[trigger] s[i].0 == k, (k, v))
    } else {
        s.push((k, v))
    }
}

/// Whether an entry has a key other than `k`.
pub open spec fn other_key<V>(k: Seq<char>) -> spec_fn((Seq<char>, V)) -> bool {
    |e: (Seq<char>, V)| e.0 != k
}

/// The entries after dropping key `k`; the others keep their order.
pub open spec fn after_remove<V>(s: Seq<(Seq<char>, V)>, k: Seq<char>) -> Seq<(Seq<char>, V)> {
    s.filter(other_key(k))
}

/// A table from environment ids to values, in the order the ids were first
/// stored.
pub struct KeyedTable<V> {
    entries: Vec<(String, V)>,
}

/// The views of a table's entries.
pub open spec fn entry_views<V>(v: Seq<(String, V)>) -> Seq<(Seq<char>, V)> {
    v.map_values(|e: (String, V)| (e.0@, e.1))
}

proof fn lemma_lookup_at<V>(s: Seq<(Seq<char>, V)>, i: int)
    requires
        keys_unique(s),
        0 <= i < s.len(),
    ensures
        has_key(s, s[i].0),
        lookup(s, s[i].0) == Some(s[i].1),
        (choose|j: int| 0 <= j < s.len() && #[trigger] s[j].0 == s[i].0) == i,
{
    let k = s[i].0;
    assert(s[i].0 == k);
    let j = choose|j: int| 0 <= j < s.len() && #[trigger] s[j].0 == k;
    if j < i {
        assert(s[j].0 != s[i].0);
    } else if j > i {
        assert(s[i].0 != s[j].0);
    }
}

proof fn lemma_filter_keys_unique<V>(s: Seq<(Seq<char>, V)>, k: Seq<char>)
    requires
        keys_unique(s),
    ensures
        keys_unique(after_remove(s, k)),
        !has_key(after_remove(s, k), k),
        forall|k2: Seq<char>| k2 != k ==> lookup(#[trigger] after_remove(s, k), k2) == lookup(s, k2),
    decreases s.len(),
{
    reveal(Seq::filter);
    let f = after_remove(s, k);
    if s.len() == 0 {
        assert(f =~= s);
    } else {
        let p = s.drop_last();
        assert(keys_unique(p));
        lemma_filter_keys_unique(p, k);
        let fp = after_remove(p, k);
        let last = s.last();
        assert(p.push(last) =~= s);
        if last.0 != k {
            assert(f =~= fp.push(last));
            assert(!has_key(fp, last.0)) by {
                if has_key(fp, last.0) {
                    let j = choose|j: int| 0 <= j < fp.len() && #[trigger] fp[j].0 == last.0;
                    assert(fp.contains(fp[j]));
                    p.lemma_filter_contains_rev(other_key(k), fp[j]);
                    let m = choose|m: int| 0 <= m < p.len() && p[m] == fp[j];
                    assert(s[m].0 == s[s.len() - 1].0);
                }
            }
            assert(keys_unique(f)) by {
                assert forall|a: int, b: int| 0 <= a < b < f.len() implies #[trigger] f[a].0
                    != #[trigger] f[b].0 by {
                    if b == f.len() - 1 {
                        assert(f[a] == fp[a]);
                    } else {
                        assert(f[a] == fp[a]);
                        assert(f[b] == fp[b]);
                    }
                }
            }
            assert(!has_key(f, k)) by {
                if has_key(f, k) {
                    let j = choose|j: int| 0 <= j < f.len() && #[trigger] f[j].0 == k;
                    if j < fp.len() {
                        assert(f[j] == fp[j]);
                    }
                }
            }
            assert forall|k2: Seq<char>| k2 != k implies lookup(#[trigger] after_remove(s, k), k2)
                == lookup(s, k2) by {
                if k2 == last.0 {
                    lemma_lookup_at(f, f.len() - 1);
                    lemma_lookup_at(s, s.len() - 1);
                } else {
                    if has_key(s, k2) {
                        let j = choose|j: int| 0 <= j < s.len() && #[trigger] s[j].0 == k2;
                        assert(j < p.len());
                        assert(p[j].0 == k2);
                        lemma_lookup_at(s, j);
                        lemma_lookup_at(p, j);
                        assert(has_key(fp, k2));
                        let m = choose|m: int| 0 <= m < fp.len() && #[trigger] fp[m].0 == k2;
                        lemma_lookup_at(fp, m);
                        assert(f[m] == fp[m]);
                        lemma_lookup_at(f, m);
                    } else {
                        assert(!has_key(p, k2)) by {
                            if has_key(p, k2) {
                                let j = choose|j: int| 0 <= j < p.len() && #[trigger] p[j].0 == k2;
                                assert(s[j].0 == k2);
                            }
                        }
                        assert(!has_key(f, k2)) by {
                            if has_key(f, k2) {
                                let j = choose|j: int| 0 <= j < f.len() && #[trigger] f[j].0 == k2;
                                if j < fp.len() {
                                    assert(f[j] == fp[j]);
                                }
                            }
                        }
                    }
                }
            }
        } else {
            assert(f =~= fp);
            assert forall|k2: Seq<char>| k2 != k implies lookup(#[trigger] after_remove(s, k), k2)
                == lookup(s, k2) by {
                assert(lookup(after_remove(p, k), k2) == lookup(p, k2));
                if has_key(s, k2) {
                    let j = choose|j: int| 0 <= j < s.len() && #[trigger] s[j].0 == k2;
                    assert(j < p.len());
                    assert(p[j].0 == k2);
                    lemma_lookup_at(s, j);
                    lemma_lookup_at(p, j);
                } else {
                    assert(!has_key(p, k2)) by {
                        if has_key(p, k2) {
                            let j = choose|j: int| 0 <= j < p.len() && #[trigger] p[j].0 == k2;
                            assert(s[j].0 == k2);
                        }
                    }
                }
            }
        }
    }
}

/// Storing under a key and then reading it gives what was stored; reading
/// another key gives what it held before.
pub proof fn lemma_lookup_after_set<V>(s: Seq<(Seq<char>, V)>, k: Seq<char>, v: V, k2: Seq<char>)
    requires
        keys_unique(s),
    ensures
        keys_unique(after_set(s, k, v)),
        lookup(after_set(s, k, v), k) == Some(v),
        k2 != k ==> lookup(after_set(s, k, v), k2) == lookup(s, k2),
{
    let t = after_set(s, k, v);
    if has_key(s, k) {
        let i = choose|i: int| 0 <= i < s.len() && #[trigger] s[i].0 == k;
        assert(keys_unique(t)) by {
            assert forall|a: int, b: int| 0 <= a < b < t.len() implies #[trigger] t[a].0
                != #[trigger] t[b].0 by {
                if a == i {
                    assert(s[i].0 == k);
                } else if b == i {
                    assert(s[i].0 == k);
                }
            }
        }
        assert(t[i].0 == k);
        lemma_lookup_at(t, i);
        if k2 != k && has_key(s, k2) {
            let j = choose|j: int| 0 <= j < s.len() && #[trigger] s[j].0 == k2;
            lemma_lookup_at(s, j);
            assert(t[j] == s[j]);
            lemma_lookup_at(t, j);
        } else if k2 != k {
            assert(!has_key(t, k2)) by {
                if has_key(t, k2) {
                    let j = choose|j: int| 0 <= j < t.len() && #[trigger] t[j].0 == k2;
                    assert(t[j] == s[j]);
                }
            }
        }
    } else {
        assert(keys_unique(t)) by {
            assert forall|a: int, b: int| 0 <= a < b < t.len() implies #[trigger] t[a].0
                != #[trigger] t[b].0 by {
                if b == s.len() {
                    assert(t[a] == s[a]);
                    assert(s[a].0 != k);
                }
            }
        }
        lemma_lookup_at(t, s.len() as int);
        if k2 != k && has_key(s, k2) {
            let j = choose|j: int| 0 <= j < s.len() && #[trigger] s[j].0 == k2;
            lemma_lookup_at(s, j);
            assert(t[j] == s[j]);
            lemma_lookup_at(t, j);
        } else if k2 != k {
            assert(!has_key(t, k2)) by {
                if has_key(t, k2) {
                    let j = choose|j: int| 0 <= j < t.len() && #[trigger] t[j].0 == k2;
                    if j < s.len() {
                        assert(t[j] == s[j]);
                    }
                }
            }
        }
    }
}

/// Dropping a key leaves nothing under it and every other key as it was.
pub proof fn lemma_lookup_after_remove<V>(s: Seq<(Seq<char>, V)>, k: Seq<char>, k2: Seq<char>)
    requires
        keys_unique(s),
    ensures
        keys_unique(after_remove(s, k)),
        lookup(after_remove(s, k), k) is None,
        k2 != k ==> lookup(after_remove(s, k), k2) == lookup(s, k2),
{
    lemma_filter_keys_unique(s, k);
}

impl<V: Copy> KeyedTable<V> {
    /// The entries, in order.
    pub closed spec fn view_entries(&self) -> Seq<(Seq<char>, V)> {
        entry_views(self.entries@)
    }

    /// The invariant: no key occurs twice.
    pub open spec fn wf(&self) -> bool {
        keys_unique(self.view_entries())
    }

    /// An empty table.
    pub fn new() -> (t: Self)
        ensures
            t.view_entries() == Seq::<(Seq<char>, V)>::empty(),
            t.wf(),
    {
        let t = KeyedTable { entries: Vec::new() };
        assert(t.view_entries() =~= Seq::<(Seq<char>, V)>::empty());
        t
    }

    fn find(&self, key: &str) -> (r: Option<usize>)
        requires
            self.wf(),
        ensures
            r matches Some(i) ==> i < self.view_entries().len() && self.view_entries()[i as int].0
                == key@ && (choose|j: int|
                0 <= j < self.view_entries().len() && #[trigger] self.view_entries()[j].0 == key@)
                == i,
            r is Some <==> has_key(self.view_entries(), key@),
    {
        let mut k: usize = 0;
        while k < self.entries.len()
            invariant
                self.wf(),
                k <= self.entries@.len(),
                forall|j: int| 0 <= j < k ==> self.entries@[j].0@ != key@,
            decreases self.entries@.len() - k,
        {
            if same_text(self.entries[k].0.as_str(), key) {
                proof {
                    assert(self.view_entries()[k as int].0 == key@);
                    lemma_lookup_at(self.view_entries(), k as int);
                }
                return Some(k);
            }
            k = k + 1;
        }
        proof {
            if has_key(self.view_entries(), key@) {
                let j = choose|j: int|
                    0 <= j < self.view_entries().len() && #[trigger] self.view_entries()[j].0
                        == key@;
                assert(self.entries@[j].0@ == key@);
            }
        }
        None
    }

    /// The value stored under `key`, if any.
    pub fn get(&self, key: &str) -> (r: Option<V>)
        requires
            self.wf(),
        ensures
            r == lookup(self.view_entries(), key@),
    {
        match self.find(key) {
            Some(i) => Some(self.entries[i].1),
            None => None,
        }
    }

    /// Stores `value` under `key`.
    pub fn set(&mut self, key: &str, value: V)
        requires
            old(self).wf(),
        ensures
            final(self).view_entries() == after_set(old(self).view_entries(), key@, value),
            final(self).wf(),
    {
        proof {
            lemma_lookup_after_set(self.view_entries(), key@, value, key@);
        }
        match self.find(key) {
            Some(i) => {
                let ghost before = self.entries@;
                self.entries.set(i, (String::from_str(key), value));
                assert(self.view_entries() =~= entry_views(before).update(i as int, (key@, value)));
            },
            None => {
                let ghost before = self.entries@;
                self.entries.push((String::from_str(key), value));
                assert(self.view_entries() =~= entry_views(before).push((key@, value)));
            },
        }
    }

    /// Drops `key`; the other entries keep their order.
    pub fn remove(&mut self, key: &str)
        requires
            old(self).wf(),
        ensures
            final(self).view_entries() == after_remove(old(self).view_entries(), key@),
            final(self).wf(),
    {
        proof {
            lemma_filter_keys_unique(self.view_entries(), key@);
        }
        let ghost s = self.view_entries();
        let mut kept: Vec<(String, V)> = Vec::new();
        let mut k: usize = 0;
        while k < self.entries.len()
            invariant
                k <= self.entries@.len(),
                s == entry_views(self.entries@),
                entry_views(kept@) == after_remove(s.subrange(0, k as int), key@),
            decreases self.entries@.len() - k,
        {
            let ghost prev = kept@;
            if !same_text(self.entries[k].0.as_str(), key) {
                kept.push((self.entries[k].0.clone(), self.entries[k].1));
            }
            k = k + 1;
            proof {
                reveal(Seq::filter);
                let sub = s.subrange(0, k as int);
                assert(sub.drop_last() =~= s.subrange(0, k - 1));
                assert(sub.last() == s[k - 1]);
                if s[k - 1].0 != key@ {
                    assert(entry_views(kept@) =~= entry_views(prev).push(s[k - 1]));
                } else {
                    assert(entry_views(kept@) =~= entry_views(prev));
                }
            }
        }
        assert(s.subrange(0, s.len() as int) =~= s);
        self.entries = kept;
    }

    /// Drops every entry.
    pub fn clear(&mut self)
        ensures
            final(self).view_entries() == Seq::<(Seq<char>, V)>::empty(),
            final(self).wf(),
    {
        self.entries = Vec::new();
        assert(self.view_entries() =~= Seq::<(Seq<char>, V)>::empty());
    }

    /// A copy of the entries, in order.
    pub fn entries(&self) -> (r: Vec<(String, V)>)
        ensures
            entry_views(r@) == self.view_entries(),
    {
        let mut r: Vec<(String, V)> = Vec::new();
        let mut k: usize = 0;
        while k < self.entries.len()
            invariant
                k <= self.entries@.len(),
                entry_views(r@) == self.view_entries().subrange(0, k as int),
            decreases self.entries@.len() - k,
        {
            let ghost prev = r@;
            r.push((self.entries[k].0.clone(), self.entries[k].1));
            k = k + 1;
            assert(entry_views(r@) =~= entry_views(prev).push(self.view_entries()[k - 1]));
            assert(entry_views(r@) =~= self.view_entries().subrange(0, k as int));
        }
        assert(self.view_entries().subrange(0, self.entries@.len() as int) =~= self.view_entries());
        r
    }

    /// The stored values, in entry order.
    pub fn values(&self) -> (r: Vec<V>)
        ensures
            r@ == self.view_entries().map_values(|e: (Seq<char>, V)| e.1),
    {
        let mut r: Vec<V> = Vec::new();
        let mut k: usize = 0;
        while k < self.entries.len()
            invariant
                k <= self.entries@.len(),
                r@ == self.view_entries().subrange(0, k as int).map_values(
                    |e: (Seq<char>, V)| e.1,
                ),
            decreases self.entries@.len() - k,
        {
            r.push(self.entries[k].1);
            k = k + 1;
            assert(r@ =~= self.view_entries().subrange(0, k as int).map_values(
                |e: (Seq<char>, V)| e.1,
            ));
        }
        assert(self.view_entries().subrange(0, self.entries@.len() as int) =~= self.view_entries());
        r
    }
}

} // verus!
