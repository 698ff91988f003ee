//! A table keyed by strings, with one entry per key.
//!
//! Document version counters and the latest-diagnostics cache are both maps
//! from a document URI to a value.  This table realizes such a map as a vector
//! of pairs whose keys are pairwise distinct, and its contracts pin every
//! operation down through the spec-level lookup below.

use vstd::prelude::*;

verus! {

use crate::strutil::str_eq;

/// The value stored under key `k`, or `None` when no entry holds it.
pub open spec fn spec_lookup<V>(s: Seq<(String, V)>, k: Seq<char>) -> Option<V>
    decreases s.len(),
{
    if s.len() == 0 {
        None
    } else if s[0].0@ == k {
        Some(s[0].1)
    } else {
        spec_lookup(s.drop_first(), k)
    }
}

/// No two entries share a key.
pub open spec fn distinct_keys<V>(s: Seq<(String, V)>) -> bool {
    forall|i: int, j: int| 0 <= i < j < s.len() ==> s[i].0@ != s[j].0@
}

/// With distinct keys, the lookup returns the value stored at any index whose
/// key matches.
proof fn lemma_lookup_at<V>(s: Seq<(String, V)>, k: Seq<char>, i: int)
    requires
        distinct_keys(s),
        0 <= i < s.len(),
        s[i].0@ == k,
    ensures
        spec_lookup(s, k) == Some(s[i].1),
    decreases s.len(),
{
    if i == 0 {
    } else {
        assert(s[0].0@ != k);
        let t = s.drop_first();
        assert(distinct_keys(t)) by {
            assert forall|p: int, q: int| 0 <= p < q < t.len() implies t[p].0@ != t[q].0@ by {
                assert(t[p] == s[p + 1]);
                assert(t[q] == s[q + 1]);
            }
        }
        assert(t[i - 1] == s[i]);
        lemma_lookup_at(t, k, i - 1);
    }
}

/// A key that no entry holds looks up to `None`.
proof fn lemma_lookup_none<V>(s: Seq<(String, V)>, k: Seq<char>)
    requires
        forall|i: int| 0 <= i < s.len() ==> s[i].0@ != k,
    ensures
        spec_lookup(s, k) == None::<V>,
    decreases s.len(),
{
    if s.len() > 0 {
        let t = s.drop_first();
        assert forall|i: int| 0 <= i < t.len() implies t[i].0@ != k by {
            assert(t[i] == s[i + 1]);
        }
        lemma_lookup_none(t, k);
    }
}

/// Appending an entry leaves the lookup of every other key unchanged.
proof fn lemma_lookup_push<V>(s: Seq<(String, V)>, e: (String, V), k: Seq<char>)
    requires
        e.0@ != k,
    ensures
        spec_lookup(s.push(e), k) == spec_lookup(s, k),
    decreases s.len(),
{
    let u = s.push(e);
    assert(u.len() == s.len() + 1);
    if s.len() == 0 {
        assert(u[0] == e);
        assert(u.drop_first() =~= Seq::<(String, V)>::empty());
        assert(spec_lookup(u, k) == spec_lookup(u.drop_first(), k));
        assert(spec_lookup(u.drop_first(), k) == None::<V>);
    } else {
        assert(u[0] == s[0]);
        assert(u.drop_first() =~= s.drop_first().push(e));
        lemma_lookup_push(s.drop_first(), e, k);
        if s[0].0@ == k {
            assert(spec_lookup(u, k) == Some(u[0].1));
        } else {
            assert(spec_lookup(u, k) == spec_lookup(u.drop_first(), k));
        }
    }
}

/// Replacing the entry at one index leaves the lookup of every key that
/// neither the old nor the new entry holds unchanged.
proof fn lemma_lookup_update<V>(s: Seq<(String, V)>, i: int, e: (String, V), k: Seq<char>)
    requires
        0 <= i < s.len(),
        s[i].0@ != k,
        e.0@ != k,
    ensures
        spec_lookup(s.update(i, e), k) == spec_lookup(s, k),
    decreases s.len(),
{
    let u = s.update(i, e);
    if i == 0 {
        assert(u[0] == e);
        assert(u.drop_first() =~= s.drop_first());
    } else {
        assert(u[0] == s[0]);
        assert(u.drop_first() =~= s.drop_first().update(i - 1, e));
        lemma_lookup_update(s.drop_first(), i - 1, e, k);
    }
}

/// Removing the entry at one index leaves the lookup of every key that the
/// removed entry does not hold unchanged.
proof fn lemma_lookup_remove<V>(s: Seq<(String, V)>, i: int, k: Seq<char>)
    requires
        0 <= i < s.len(),
        s[i].0@ != k,
    ensures
        spec_lookup(s.remove(i), k) == spec_lookup(s, k),
    decreases s.len(),
{
    let u = s.remove(i);
    if i == 0 {
        assert(u =~= s.drop_first());
    } else {
        assert(u[0] == s[0]);
        assert(u.drop_first() =~= s.drop_first().remove(i - 1));
        lemma_lookup_remove(s.drop_first(), i - 1, k);
    }
}

/// A map from strings to values with one entry per key.
pub struct StrTable<V> {
    /// The entries; their keys are pairwise distinct (`wf`).
    pub entries: Vec<(String, V)>,
}

impl<V> StrTable<V> {
    /// No two entries share a key.
    pub open spec fn wf(self) -> bool {
        distinct_keys(self.entries@)
    }

    /// The value stored under `k`.
    pub open spec fn spec_get(self, k: Seq<char>) -> Option<V> {
        spec_lookup(self.entries@, k)
    }

    /// How many keys hold an entry.
    pub open spec fn len(self) -> nat {
        self.entries@.len()
    }

    /// An empty table.
    pub fn new() -> (r: StrTable<V>)
        ensures
            r.wf(),
            r.len() == 0,
            forall|k: Seq<char>| r.spec_get(k) == None::<V>,
    {
        StrTable { entries: Vec::new() }
    }

    /// Returns a reference to the value stored under `k`, if any.
    pub fn get(&self, k: &str) -> (r: Option<&V>)
        requires
            self.wf(),
        ensures
            match r {
                Some(v) => self.spec_get(k@) == Some(*v),
                None => self.spec_get(k@) == None::<V>,
            },
    {
        let n: usize = self.entries.len();
        let mut i: usize = 0;
        while i < n
            invariant
                self.wf(),
                n == self.entries@.len(),
                0 <= i <= n,
                forall|j: int| 0 <= j < i ==> self.entries@[j].0@ != k@,
            decreases n - i,
        {
            let e = &self.entries[i];
            if str_eq(e.0.as_str(), k) {
                proof {
                    lemma_lookup_at(self.entries@, k@, i as int);
                }
                return Some(&e.1);
            }
            i = i + 1;
        }
        proof {
            lemma_lookup_none(self.entries@, k@);
        }
        None
    }

    /// Stores `v` under `k`, replacing any prior value for that key and
    /// touching no other key.
    pub fn set(&mut self, k: String, v: V)
        requires
            old(self).wf(),
        ensures
            final(self).wf(),
            final(self).spec_get(k@) == Some(v),
            forall|k2: Seq<char>| k2 != k@ ==> final(self).spec_get(k2) == old(self).spec_get(k2),
            final(self).len() == old(self).len() + (
            if old(self).spec_get(k@) is Some {
                0int
            } else {
                1int
            }),
    {
        let n: usize = self.entries.len();
        let mut i: usize = 0;
        while i < n
            invariant
                *self == *old(self),
                old(self).wf(),
                n == self.entries@.len(),
                0 <= i <= n,
                forall|j: int| 0 <= j < i ==> self.entries@[j].0@ != k@,
            decreases n - i,
        {
            let found = str_eq(self.entries[i].0.as_str(), k.as_str());
            if found {
                proof {
                    lemma_lookup_at(self.entries@, k@, i as int);
                }
                let ghost s_old = self.entries@;
                let e = &mut self.entries[i];
                *e = (k, v);
                proof {
                    let s_new = self.entries@;
                    let ke = s_new[i as int];
                    assert(s_new =~= s_old.update(i as int, ke));
                    assert(distinct_keys(s_new)) by {
                        assert forall|p: int, q: int| 0 <= p < q < s_new.len() implies s_new[p].0@
                            != s_new[q].0@ by {
                            assert(s_old[p].0@ != s_old[q].0@);
                        }
                    }
                    lemma_lookup_at(s_new, ke.0@, i as int);
                    assert forall|k2: Seq<char>| k2 != ke.0@ implies spec_lookup(s_new, k2)
                        == spec_lookup(s_old, k2) by {
                        lemma_lookup_update(s_old, i as int, ke, k2);
                    }
                }
                return ;
            }
            i = i + 1;
        }
        proof {
            lemma_lookup_none(self.entries@, k@);
        }
        let ghost s_old = self.entries@;
        self.entries.push((k, v));
        proof {
            let s_new = self.entries@;
            let ke = s_new[s_new.len() - 1];
            assert(distinct_keys(s_new)) by {
                assert forall|p: int, q: int| 0 <= p < q < s_new.len() implies s_new[p].0@
                    != s_new[q].0@ by {
                    if q < s_new.len() - 1 {
                        assert(s_old[p].0@ != s_old[q].0@);
                    } else {
                        assert(s_new[p] == s_old[p]);
                    }
                }
            }
            lemma_lookup_at(s_new, ke.0@, s_new.len() - 1);
            assert forall|k2: Seq<char>| k2 != ke.0@ implies spec_lookup(s_new, k2) == spec_lookup(
                s_old,
                k2,
            ) by {
                lemma_lookup_push(s_old, ke, k2);
            }
        }
    }

    /// Discards the entry under `k`, if any, touching no other key; returns
    /// whether an entry was discarded.
    pub fn remove(&mut self, k: &str) -> (found: bool)
        requires
            old(self).wf(),
        ensures
            final(self).wf(),
            found == (old(self).spec_get(k@) is Some),
            final(self).spec_get(k@) == None::<V>,
            forall|k2: Seq<char>| k2 != k@ ==> final(self).spec_get(k2) == old(self).spec_get(k2),
    {
        let n: usize = self.entries.len();
        let mut i: usize = 0;
        while i < n
            invariant
                *self == *old(self),
                old(self).wf(),
                n == self.entries@.len(),
                0 <= i <= n,
                forall|j: int| 0 <= j < i ==> self.entries@[j].0@ != k@,
            decreases n - i,
        {
            let found = str_eq(self.entries[i].0.as_str(), k);
            if found {
                proof {
                    lemma_lookup_at(self.entries@, k@, i as int);
                }
                let ghost s_old = self.entries@;
                self.entries.remove(i);
                proof {
                    let s_new = self.entries@;
                    assert(s_new =~= s_old.remove(i as int));
                    assert(distinct_keys(s_new)) by {
                        assert forall|p: int, q: int| 0 <= p < q < s_new.len() implies s_new[p].0@
                            != s_new[q].0@ by {
                            let p0: int = if p < i { p } else { p + 1 };
                            let q0: int = if q < i { q } else { q + 1 };
                            assert(s_new[p] == s_old[p0]);
                            assert(s_new[q] == s_old[q0]);
                            assert(s_old[p0].0@ != s_old[q0].0@);
                        }
                    }
                    assert forall|j: int| 0 <= j < s_new.len() implies s_new[j].0@ != k@ by {
                        let j0: int = if j < i { j } else { j + 1 };
                        assert(s_new[j] == s_old[j0]);
                    }
                    lemma_lookup_none(s_new, k@);
                    assert forall|k2: Seq<char>| k2 != k@ implies spec_lookup(s_new, k2)
                        == spec_lookup(s_old, k2) by {
                        lemma_lookup_remove(s_old, i as int, k2);
                    }
                }
                return true;
            }
            i = i + 1;
        }
        proof {
            lemma_lookup_none(self.entries@, k@);
        }
        false
    }
}

} // verus!
