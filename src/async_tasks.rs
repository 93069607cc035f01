//! Bookkeeping of asynchronous requests: which ones are still pending.
//! Completion and cancellation both retire a request; retiring one that is
//! no longer pending is a no-op, so a repeated cancel is harmless.

use vstd::prelude::*;
use crate::error::CubeMelonPluginErrorCode;
use crate::instance::{remove_id, lemma_remove_id_absent, lemma_remove_id_contains};

verus! {

/// Requests that were submitted and have neither completed nor been
/// cancelled.
pub struct AsyncTaskTable {
    pending: Vec<u64>,
}

impl AsyncTaskTable {
    pub closed spec fn pending_ids(&self) -> Seq<u64> {
        self.pending@
    }

    pub open spec fn is_pending(&self, id: u64) -> bool {
        self.pending_ids().contains(id)
    }

    pub fn new() -> (r: Self)
        ensures
            r.pending_ids() == Seq::<u64>::empty(),
    {
        AsyncTaskTable { pending: Vec::new() }
    }

    /// Whether `request_id` is pending.
    pub fn contains(&self, request_id: u64) -> (r: bool)
        ensures
            r == self.is_pending(request_id),
    {
        let mut i: usize = 0;
        while i < self.pending.len()
            invariant
                i <= self.pending@.len(),
                forall|j: int| 0 <= j < i ==> self.pending@[j] != request_id,
            decreases self.pending@.len() - i,
        {
            if self.pending[i] == request_id {
                assert(self.pending@[i as int] == request_id);
                return true;
            }
            i = i + 1;
        }
        false
    }

    /// Records a submitted request; one already pending is refused.
    pub fn submit(&mut self, request_id: u64) -> (r: CubeMelonPluginErrorCode)
        ensures
            old(self).is_pending(request_id) ==> r == CubeMelonPluginErrorCode::InvalidParameter
                && final(self).pending_ids() == old(self).pending_ids(),
            !old(self).is_pending(request_id) ==> r == CubeMelonPluginErrorCode::Success
                && final(self).pending_ids() == old(self).pending_ids().push(request_id),
    {
        if self.contains(request_id) {
            return CubeMelonPluginErrorCode::InvalidParameter;
        }
        self.pending.push(request_id);
        CubeMelonPluginErrorCode::Success
    }

    /// Retires a request if it is pending; otherwise nothing changes.
    /// Returns whether it was pending.
    fn retire(&mut self, request_id: u64) -> (r: bool)
        ensures
            r == old(self).is_pending(request_id),
            final(self).pending_ids() == remove_id(old(self).pending_ids(), request_id),
    {
        let ghost before = self.pending@;
        let mut kept: Vec<u64> = Vec::new();
        let mut found = false;
        let mut i: usize = 0;
        while i < self.pending.len()
            invariant
                self.pending@ == before,
                i <= before.len(),
                kept@ == remove_id(before.subrange(0, i as int), request_id),
                found == before.subrange(0, i as int).contains(request_id),
            decreases before.len() - i,
        {
            let x = self.pending[i];
            let ghost s1 = before.subrange(0, i as int);
            let ghost s2 = before.subrange(0, i + 1);
            assert(s2.drop_last() =~= s1);
            assert(s2.last() == x);
            if x == request_id {
                found = true;
            } else {
                kept.push(x);
            }
            proof {
                if s2.contains(request_id) && x != request_id {
                    let k = choose|k: int| 0 <= k < s2.len() && #[trigger] s2[k] == request_id;
                    assert(s1[k] == request_id);
                }
                if s1.contains(request_id) {
                    let k = choose|k: int| 0 <= k < s1.len() && #[trigger] s1[k] == request_id;
                    assert(s2[k] == request_id);
                }
                if x == request_id {
                    assert(s2[i as int] == request_id);
                }
            }
            i = i + 1;
        }
        assert(before.subrange(0, i as int) =~= before);
        self.pending = kept;
        found
    }

    /// The request completed: its callback has fired.
    pub fn complete(&mut self, request_id: u64) -> (r: bool)
        ensures
            r == old(self).is_pending(request_id),
            final(self).pending_ids() == remove_id(old(self).pending_ids(), request_id),
    {
        self.retire(request_id)
    }

    /// Advisory cancellation. A request that is no longer pending (already
    /// completed, already cancelled, or already freed by its caller) is
    /// ignored without effect.
    pub fn cancel(&mut self, request_id: u64) -> (r: CubeMelonPluginErrorCode)
        ensures
            r == CubeMelonPluginErrorCode::Success,
            final(self).pending_ids() == remove_id(old(self).pending_ids(), request_id),
            !old(self).is_pending(request_id) ==> final(self).pending_ids() == old(self).pending_ids(),
    {
        let _ = self.retire(request_id);
        proof {
            if !old(self).is_pending(request_id) {
                lemma_remove_id_absent(old(self).pending_ids(), request_id);
            }
        }
        CubeMelonPluginErrorCode::Success
    }
}

/// Cancellation idempotence: cancelling the same request a second time
/// leaves the pending requests exactly as the first cancel left them.
pub proof fn lemma_cancel_idempotent(pending: Seq<u64>, request_id: u64)
    ensures
        remove_id(remove_id(pending, request_id), request_id) == remove_id(pending, request_id),
{
    lemma_remove_id_contains(pending, request_id, request_id);
    lemma_remove_id_absent(remove_id(pending, request_id), request_id);
}

} // verus!
