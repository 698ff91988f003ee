//! Request correlation: identifiers for in-flight requests.
//!
//! Every request sent to an analysis server carries an identifier drawn from
//! an ever-incrementing per-session counter.  The correlator registers the
//! identifier while the request is outstanding and removes it when the
//! matching response arrives, when the request times out, or when the whole
//! session fails.  No two outstanding requests of one session ever share an
//! identifier.

use vstd::prelude::*;

verus! {

/// The pending-request table of one session.
pub struct Correlator {
    /// The identifier the next request will receive.
    pub next_id: u64,
    /// Identifiers of requests sent and not yet resolved, failed or timed out.
    pub pending: Vec<u64>,
}

impl Correlator {
    /// Every pending identifier was drawn from the counter, and no identifier
    /// is pending twice.
    pub open spec fn wf(self) -> bool {
        &&& forall|i: int| 0 <= i < self.pending@.len() ==> self.pending@[i] < self.next_id
        &&& forall|i: int, j: int|
            0 <= i < j < self.pending@.len() ==> self.pending@[i] != self.pending@[j]
    }

    /// Whether a request with this identifier is outstanding.
    pub open spec fn is_pending(self, id: u64) -> bool {
        self.pending@.contains(id)
    }

    /// How many requests are outstanding.
    pub open spec fn pending_count(self) -> nat {
        self.pending@.len()
    }

    /// A fresh correlator with no outstanding requests.
    pub fn new() -> (r: Correlator)
        ensures
            r.wf(),
            r.next_id == 0,
            r.pending_count() == 0,
            forall|id: u64| !r.is_pending(id),
    {
        Correlator { next_id: 0, pending: Vec::new() }
    }

    /// Draws the next identifier and registers it as pending.  The identifier
    /// is strictly larger than every identifier drawn before, hence never
    /// reused while any earlier request could still be pending.
    pub fn allocate(&mut self) -> (id: u64)
        requires
            old(self).wf(),
            old(self).next_id < u64::MAX,
        ensures
            final(self).wf(),
            id == old(self).next_id,
            final(self).next_id == old(self).next_id + 1,
            !old(self).is_pending(id),
            final(self).is_pending(id),
            forall|x: u64| x != id ==> final(self).is_pending(x) == old(self).is_pending(x),
            final(self).pending@ == old(self).pending@.push(id),
    {
        let id = self.next_id;
        proof {
            if self.pending@.contains(id) {
                let i = choose|i: int| 0 <= i < self.pending@.len() && self.pending@[i] == id;
                assert(self.pending@[i] < id);
            }
        }
        self.next_id = self.next_id + 1;
        self.pending.push(id);
        proof {
            assert(self.pending@[self.pending@.len() - 1] == id);
            assert forall|x: u64| x != id implies final(self).is_pending(x) == old(
                self,
            ).is_pending(x) by {
                if old(self).pending@.contains(x) {
                    let i = choose|i: int|
                        0 <= i < old(self).pending@.len() && old(self).pending@[i] == x;
                    assert(self.pending@[i] == x);
                }
                if self.pending@.contains(x) {
                    let i = choose|i: int|
                        0 <= i < self.pending@.len() && self.pending@[i] == x;
                    assert(i < old(self).pending@.len());
                    assert(old(self).pending@[i] == x);
                }
            }
        }
        id
    }

    /// Removes an identifier when its response arrives or its timeout fires.
    /// Returns whether the identifier was actually outstanding; an unknown
    /// identifier leaves the table unchanged.
    pub fn resolve(&mut self, id: u64) -> (found: bool)
        requires
            old(self).wf(),
        ensures
            final(self).wf(),
            found == old(self).is_pending(id),
            !found ==> *final(self) == *old(self),
            final(self).next_id == old(self).next_id,
            !final(self).is_pending(id),
            forall|x: u64| x != id ==> final(self).is_pending(x) == old(self).is_pending(x),
            final(self).pending_count() == old(self).pending_count() - (
            if found {
                1int
            } else {
                0int
            }),
    {
        let n: usize = self.pending.len();
        let mut i: usize = 0;
        while i < n
            invariant
                *self == *old(self),
                old(self).wf(),
                n == self.pending@.len(),
                0 <= i <= n,
                forall|j: int| 0 <= j < i ==> self.pending@[j] != id,
            decreases n - i,
        {
            if self.pending[i] == id {
                self.pending.remove(i);
                proof {
                    let s = old(self).pending@;
                    assert(s.contains(id));
                    assert forall|x: u64| x != id implies final(self).is_pending(x) == old(
                        self,
                    ).is_pending(x) by {
                        if s.contains(x) {
                            let k = choose|k: int| 0 <= k < s.len() && s[k] == x;
                            if k < i {
                                assert(self.pending@[k] == x);
                            } else {
                                assert(k > i);
                                assert(self.pending@[k - 1] == x);
                            }
                        }
                        if self.pending@.contains(x) {
                            let k = choose|k: int|
                                0 <= k < self.pending@.len() && self.pending@[k] == x;
                            if k < i {
                                assert(s[k] == x);
                            } else {
                                assert(s[k + 1] == x);
                            }
                        }
                    }
                    assert forall|k: int| 0 <= k < self.pending@.len() implies self.pending@[k]
                        != id by {
                        if k < i {
                            assert(self.pending@[k] == s[k]);
                        } else {
                            assert(self.pending@[k] == s[k + 1]);
                        }
                    }
                }
                return true;
            }
            i = i + 1;
        }
        proof {
            if old(self).pending@.contains(id) {
                let k = choose|k: int|
                    0 <= k < old(self).pending@.len() && old(self).pending@[k] == id;
                assert(old(self).pending@[k] != id);
            }
        }
        false
    }

    /// Empties the table, handing back every outstanding identifier so each
    /// waiting caller can be failed; no caller is ever left waiting.
    pub fn fail_all(&mut self) -> (ids: Vec<u64>)
        requires
            old(self).wf(),
        ensures
            final(self).wf(),
            ids@ == old(self).pending@,
            final(self).pending_count() == 0,
            forall|id: u64| !final(self).is_pending(id),
            final(self).next_id == old(self).next_id,
    {
        let mut ids: Vec<u64> = Vec::new();
        core::mem::swap(&mut ids, &mut self.pending);
        ids
    }
}

} // verus!
