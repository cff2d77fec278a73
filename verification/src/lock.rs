//! The locking coordinator: per-resource-key mutual exclusion around a
//! pipeline invocation.
//!
//! The table holds the set of resource keys currently locked. Acquisition
//! fails fast with a conflict when the key is held; release always succeeds
//! and is owed on every exit path of the pipeline.

use vstd::prelude::*;

use crate::errors::ApiErrorResponse;

verus! {

/// What the pipeline asks of the coordinator for one operation.
#[derive(Clone, Copy, Debug, PartialEq, Eq, Structural)]
pub enum LockAction {
    /// Acquire the lock before the first phase and hold it for the whole
    /// invocation.
    HoldForDuration,
    /// This operation needs no locking.
    NotApplicable,
}

/// The set of resource keys currently locked, each held by at most one
/// pipeline invocation.
#[derive(Debug)]
pub struct LockTable {
    pub held: Vec<String>,
}

impl View for LockTable {
    type V = Seq<Seq<char>>;

    open spec fn view(&self) -> Seq<Seq<char>> {
        self.held.deep_view()
    }
}

impl LockTable {
    /// No key is held twice.
    pub open spec fn wf(self) -> bool {
        forall|i: int, j: int| 0 <= i < j < self@.len() ==> self@[i] != self@[j]
    }

    /// Whether this resource key is currently locked.
    pub open spec fn holds(self, key: Seq<char>) -> bool {
        self@.contains(key)
    }

    /// A table with no key held.
    pub fn new() -> (r: LockTable)
        ensures
            r.wf(),
            r@ == Seq::<Seq<char>>::empty(),
    {
        let r = LockTable { held: Vec::new() };
        proof {
            assert(r@ =~= Seq::<Seq<char>>::empty());
        }
        r
    }

    /// Try to take the exclusive lock on this key: succeeds exactly when the
    /// key is free, and fails fast with a conflict otherwise. No retry is
    /// made here; a caller wishing to retry re-invokes the whole pipeline.
    pub fn acquire(&mut self, key: &String) -> (r: Result<(), ApiErrorResponse>)
        requires
            old(self).wf(),
        ensures
            final(self).wf(),
            r is Ok <==> !old(self).holds(key@),
            r is Ok ==> final(self)@ == old(self)@.push(key@),
            r is Err ==> r->Err_0 is LockAcquisitionFailed && final(self)@ == old(self)@,
            final(self).holds(key@),
    {
        let n = self.held.len();
        for i in 0..n
            invariant
                n == self.held.len(),
                self@ == old(self)@,
                old(self).wf(),
                forall|k: int| 0 <= k < i ==> self@[k] != key@,
        {
            if self.held[i] == *key {
                assert(self@[i as int] == key@);
                return Err(ApiErrorResponse::LockAcquisitionFailed);
            }
        }
        assert(forall|k: int| 0 <= k < self@.len() ==> self@[k] != key@);
        assert(!old(self).holds(key@));
        let ghost pre = self@;
        self.held.push(key.clone());
        proof {
            assert(self@ =~= pre.push(key@));
            assert(self@[pre.len() as int] == key@);
        }
        Ok(())
    }

    /// Give the lock on this key back; afterwards the key is free, and every
    /// other held key is untouched. Releasing a key that is not held is a
    /// no-op.
    pub fn release(&mut self, key: &String)
        requires
            old(self).wf(),
        ensures
            final(self).wf(),
            !final(self).holds(key@),
            old(self).holds(key@) ==> final(self)@ == old(self)@.remove(
                old(self)@.index_of(key@),
            ),
            !old(self).holds(key@) ==> final(self)@ == old(self)@,
            forall|k: Seq<char>| k != key@ ==> (final(self).holds(k) <==> old(self).holds(k)),
    {
        let ghost pre = self@;
        let n = self.held.len();
        for i in 0..n
            invariant
                n == self.held.len(),
                self@ == pre,
                pre == old(self)@,
                old(self).wf(),
                forall|k: int| 0 <= k < i ==> self@[k] != key@,
        {
            if self.held[i] == *key {
                proof {
                    assert(pre[i as int] == key@);
                    assert(pre.contains(key@));
                    // the held key is unique, so this is the first occurrence
                    assert forall|k: int| 0 <= k < pre.len() && pre[k] == key@ implies k == i as int
                    by {
                        if k < i as int {
                            assert(pre[k] != key@);
                        } else if k > i as int {
                            assert(pre[i as int] != pre[k]);
                        }
                    }
                    assert(pre.index_of(key@) == i as int);
                }
                self.held.remove(i);
                proof {
                    assert(self@ =~= pre.remove(i as int));
                    pre.remove_ensures(i as int);
                    assert forall|a: int, b: int| 0 <= a < b < self@.len() implies self@[a]
                        != self@[b] by {
                        let oa = if a < i as int { a } else { a + 1 };
                        let ob = if b < i as int { b } else { b + 1 };
                        assert(self@[a] == pre[oa]);
                        assert(self@[b] == pre[ob]);
                    }
                    assert forall|k: int| 0 <= k < self@.len() implies self@[k] != key@ by {
                        let ok = if k < i as int { k } else { k + 1 };
                        assert(self@[k] == pre[ok]);
                    }
                    assert(!self@.contains(key@));
                    assert forall|k: Seq<char>| k != key@ && pre.contains(k) implies
                        self@.contains(k) by {
                        let ok = choose|j: int| 0 <= j < pre.len() && pre[j] == k;
                        let nk = if ok < i as int { ok } else { ok - 1 };
                        assert(ok != i as int);
                        assert(self@[nk] == pre[ok]);
                    }
                    assert forall|k: Seq<char>| k != key@ && self@.contains(k) implies
                        pre.contains(k) by {
                        let nk = choose|j: int| 0 <= j < self@.len() && self@[j] == k;
                        let ok = if nk < i as int { nk } else { nk + 1 };
                        assert(pre[ok] == self@[nk]);
                    }
                }
                return ;
            }
        }
        assert(forall|k: int| 0 <= k < pre.len() ==> pre[k] != key@);
        assert(!pre.contains(key@));
    }
}

} // verus!
