use crate::bytes32::bytes32_eq;
use crate::constants::NULLIFIER_SET_CAPACITY;
use crate::errors::PrivateTransfersError;
use vstd::prelude::*;

verus! {

/// Bounded append-only record of spent-note markers, tied to one pool.
/// Once a nullifier is present it is never removed, which is the sole
/// double-spend guard of the withdraw protocol.
pub struct NullifierSet {
    /// Identity of the pool this set belongs to.
    pub pool: [u8; 32],
    /// Spent-note markers, in the order they were marked.
    pub nullifiers: Vec<[u8; 32]>,
}

impl NullifierSet {
    /// A nullifier counts as used while the set holds it.
    pub open spec fn used(self, nullifier: Seq<u8>) -> bool {
        exists|i: int| 0 <= i < self.nullifiers@.len() && self.nullifiers@[i]@ == nullifier
    }

    /// The set never exceeds its capacity and holds each nullifier at most
    /// once.
    pub open spec fn wf(self) -> bool {
        &&& self.nullifiers@.len() <= NULLIFIER_SET_CAPACITY
        &&& forall|i: int, j: int|
            0 <= i < j < self.nullifiers@.len() ==> self.nullifiers@[i]@ != self.nullifiers@[j]@
    }

    /// Scans the set for a spent-note marker.
    pub fn is_nullifier_used(&self, nullifier_hash: &[u8; 32]) -> (r: bool)
        ensures
            r == self.used(nullifier_hash@),
    {
        let mut i: usize = 0;
        while i < self.nullifiers.len()
            invariant
                0 <= i <= self.nullifiers@.len(),
                forall|k: int| 0 <= k < i ==> self.nullifiers@[k]@ != nullifier_hash@,
            decreases self.nullifiers@.len() - i,
        {
            if bytes32_eq(&self.nullifiers[i], nullifier_hash) {
                return true;
            }
            i = i + 1;
        }
        false
    }

    /// Records a nullifier as spent. Marking past the capacity bound fails
    /// with the set full; below capacity, a nullifier can be marked only
    /// once, and marking it again fails.
    pub fn mark_nullifier_used(&mut self, nullifier_hash: [u8; 32]) -> (r: Result<
        (),
        PrivateTransfersError,
    >)
        requires
            old(self).wf(),
        ensures
            final(self).wf(),
            final(self).pool == old(self).pool,
            old(self).nullifiers@.len() >= NULLIFIER_SET_CAPACITY ==> r == Err::<
                (),
                PrivateTransfersError,
            >(PrivateTransfersError::NullifierSetFull) && *final(self) == *old(self),
            old(self).nullifiers@.len() < NULLIFIER_SET_CAPACITY && old(self).used(
                nullifier_hash@,
            ) ==> r == Err::<(), PrivateTransfersError>(PrivateTransfersError::NullifierUsed)
                && *final(self) == *old(self),
            old(self).nullifiers@.len() < NULLIFIER_SET_CAPACITY && !old(self).used(
                nullifier_hash@,
            ) ==> r == Ok::<(), PrivateTransfersError>(())
                && final(self).nullifiers@ == old(self).nullifiers@.push(nullifier_hash),
            final(self).used(nullifier_hash@) <==> r is Ok || old(self).used(nullifier_hash@),
    {
        if self.nullifiers.len() >= NULLIFIER_SET_CAPACITY {
            return Err(PrivateTransfersError::NullifierSetFull);
        }
        if self.is_nullifier_used(&nullifier_hash) {
            return Err(PrivateTransfersError::NullifierUsed);
        }
        let ghost pre = self.nullifiers@;
        self.nullifiers.push(nullifier_hash);
        proof {
            assert forall|i: int, j: int|
                0 <= i < j < self.nullifiers@.len() implies self.nullifiers@[i]@
                != self.nullifiers@[j]@ by {
                if j < pre.len() {
                    assert(self.nullifiers@[i]@ == pre[i]@);
                    assert(self.nullifiers@[j]@ == pre[j]@);
                } else {
                    assert(j == pre.len());
                    assert(self.nullifiers@[j]@ == nullifier_hash@);
                    assert(self.nullifiers@[i]@ == pre[i]@);
                }
            }
            assert(self.used(nullifier_hash@)) by {
                assert(self.nullifiers@[pre.len() as int]@ == nullifier_hash@);
            }
        }
        Ok(())
    }
}

} // verus!
