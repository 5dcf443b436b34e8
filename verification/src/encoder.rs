use vstd::prelude::*;

verus! {

/// The 12-byte header of the witness encoding: public-input count 4,
/// private-input count 0, and vector length 4, each a big-endian 32-bit
/// integer.
pub open spec fn header_bytes() -> Seq<u8> {
    seq![0u8, 0u8, 0u8, 4u8, 0u8, 0u8, 0u8, 0u8, 0u8, 0u8, 0u8, 4u8]
}

/// Big-endian bytes of a 64-bit amount.
pub open spec fn u64_be_bytes(x: u64) -> Seq<u8> {
    seq![
        ((x >> 56) & 0xff) as u8,
        ((x >> 48) & 0xff) as u8,
        ((x >> 40) & 0xff) as u8,
        ((x >> 32) & 0xff) as u8,
        ((x >> 24) & 0xff) as u8,
        ((x >> 16) & 0xff) as u8,
        ((x >> 8) & 0xff) as u8,
        (x & 0xff) as u8,
    ]
}

/// The amount as a 32-byte unsigned big-endian integer, zero-padded on the
/// left.
pub open spec fn amount_bytes(amount: u64) -> Seq<u8> {
    Seq::new(24, |i: int| 0u8) + u64_be_bytes(amount)
}

/// The exact 140-byte layout the external verifier expects appended after the
/// proof bytes: the header, then root, nullifier hash, recipient identity,
/// and amount, 32 bytes each. This is a versioned wire contract: any change
/// to field order, width, or byte order silently breaks proof acceptance.
pub open spec fn encoded_public_inputs(
    root: Seq<u8>,
    nullifier_hash: Seq<u8>,
    recipient: Seq<u8>,
    amount: u64,
) -> Seq<u8> {
    header_bytes() + root + nullifier_hash + recipient + amount_bytes(amount)
}

/// Pure encoder turning (root, nullifier hash, recipient, amount) into the
/// byte string the external verifier reads as its public inputs.
pub fn encode_public_inputs(
    root: &[u8; 32],
    nullifier_hash: &[u8; 32],
    recipient: &[u8; 32],
    amount: u64,
) -> (r: Vec<u8>)
    ensures
        r@ == encoded_public_inputs(root@, nullifier_hash@, recipient@, amount),
        r@.len() == 140,
{
    let mut out: Vec<u8> = Vec::with_capacity(140);
    out.push(0);
    out.push(0);
    out.push(0);
    out.push(4);
    out.push(0);
    out.push(0);
    out.push(0);
    out.push(0);
    out.push(0);
    out.push(0);
    out.push(0);
    out.push(4);
    proof {
        assert(out@ =~= header_bytes());
    }
    push_bytes32(&mut out, root);
    push_bytes32(&mut out, nullifier_hash);
    push_bytes32(&mut out, recipient);
    let ghost before_amount = out@;
    let mut i: usize = 0;
    while i < 24
        invariant
            0 <= i <= 24,
            out@ == before_amount + Seq::new(i as nat, |k: int| 0u8),
        decreases 24 - i,
    {
        out.push(0);
        proof {
            assert(out@ =~= before_amount + Seq::new((i + 1) as nat, |k: int| 0u8));
        }
        i = i + 1;
    }
    out.push(((amount >> 56) & 0xff) as u8);
    out.push(((amount >> 48) & 0xff) as u8);
    out.push(((amount >> 40) & 0xff) as u8);
    out.push(((amount >> 32) & 0xff) as u8);
    out.push(((amount >> 24) & 0xff) as u8);
    out.push(((amount >> 16) & 0xff) as u8);
    out.push(((amount >> 8) & 0xff) as u8);
    out.push((amount & 0xff) as u8);
    proof {
        assert(out@ =~= encoded_public_inputs(root@, nullifier_hash@, recipient@, amount));
    }
    out
}

/// Appends all 32 bytes of an opaque value.
fn push_bytes32(out: &mut Vec<u8>, bytes: &[u8; 32])
    ensures
        final(out)@ == old(out)@ + bytes@,
{
    let mut i: usize = 0;
    while i < 32
        invariant
            0 <= i <= 32,
            out@ == old(out)@ + bytes@.take(i as int),
        decreases 32 - i,
    {
        out.push(bytes[i]);
        proof {
            assert(out@ =~= old(out)@ + bytes@.take(i + 1));
        }
        i = i + 1;
    }
    proof {
        assert(bytes@.take(32) =~= bytes@);
    }
}

/// The encoding is a pure function of its four arguments, is always exactly
/// 140 bytes long, and carries the header and the four fields at fixed
/// offsets; encoding the same inputs twice yields byte-identical output.
pub proof fn lemma_encoded_public_inputs_layout(
    root: Seq<u8>,
    nullifier_hash: Seq<u8>,
    recipient: Seq<u8>,
    amount: u64,
)
    requires
        root.len() == 32,
        nullifier_hash.len() == 32,
        recipient.len() == 32,
    ensures
        encoded_public_inputs(root, nullifier_hash, recipient, amount).len() == 140,
        encoded_public_inputs(root, nullifier_hash, recipient, amount).subrange(0, 12)
            == header_bytes(),
        encoded_public_inputs(root, nullifier_hash, recipient, amount).subrange(12, 44) == root,
        encoded_public_inputs(root, nullifier_hash, recipient, amount).subrange(44, 76)
            == nullifier_hash,
        encoded_public_inputs(root, nullifier_hash, recipient, amount).subrange(76, 108)
            == recipient,
        encoded_public_inputs(root, nullifier_hash, recipient, amount).subrange(108, 140)
            == amount_bytes(amount),
{
    let e = encoded_public_inputs(root, nullifier_hash, recipient, amount);
    assert(e.subrange(0, 12) =~= header_bytes());
    assert(e.subrange(12, 44) =~= root);
    assert(e.subrange(44, 76) =~= nullifier_hash);
    assert(e.subrange(76, 108) =~= recipient);
    assert(e.subrange(108, 140) =~= amount_bytes(amount));
}

} // verus!
