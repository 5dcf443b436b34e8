use vstd::prelude::*;

verus! {

/// The all-zero 32-byte value; it fills the ring-buffer slots that no deposit
/// has written yet.
pub open spec fn zero_bytes32() -> Seq<u8> {
    Seq::new(32, |i: int| 0u8)
}

/// Compares two opaque 32-byte values (commitments, roots, nullifiers,
/// identities) for equality, byte by byte.
pub fn bytes32_eq(a: &[u8; 32], b: &[u8; 32]) -> (r: bool)
    ensures
        r <==> a@ == b@,
{
    let mut i: usize = 0;
    while i < 32
        invariant
            0 <= i <= 32,
            forall|k: int| 0 <= k < i ==> a@[k] == b@[k],
        decreases 32 - i,
    {
        if a[i] != b[i] {
            return false;
        }
        i = i + 1;
    }
    proof {
        assert(a@ =~= b@);
    }
    true
}

} // verus!
