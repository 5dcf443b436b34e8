use vstd::prelude::*;

verus! {

/// Pluggable proof-verification capability. The deployed system binds this to
/// a separate verifier component invoked with the proof bytes followed by the
/// encoded public inputs; tests bind it to a stand-in. Which byte strings are
/// accepted is entirely the implementation's affair: the withdraw protocol
/// only relays the verdict.
pub trait ProofVerifier {
    /// Which (proof, public inputs) pairs this verifier accepts.
    spec fn accepts(&self, proof_bytes: Seq<u8>, public_inputs: Seq<u8>) -> bool;

    /// Checks one proof against the encoded public inputs and returns the
    /// verdict.
    fn verify(&self, proof_bytes: &Vec<u8>, public_inputs: &Vec<u8>) -> (r: bool)
        ensures
            r == self.accepts(proof_bytes@, public_inputs@),
    ;
}

/// Stand-in verifier with a fixed verdict, for hosts and tests that run
/// without a deployed proof system. It must never stand for the real
/// verifier in production: it attests nothing.
pub struct MockVerifier {
    /// The verdict returned for every proof.
    pub verdict: bool,
}

impl ProofVerifier for MockVerifier {
    open spec fn accepts(&self, proof_bytes: Seq<u8>, public_inputs: Seq<u8>) -> bool {
        self.verdict
    }

    fn verify(&self, proof_bytes: &Vec<u8>, public_inputs: &Vec<u8>) -> (r: bool) {
        self.verdict
    }
}

/// Instruction payload for the deployed verifier component: the proof bytes
/// immediately followed by the encoded public inputs.
pub fn verifier_payload(proof_bytes: &Vec<u8>, public_inputs: &Vec<u8>) -> (r: Vec<u8>)
    ensures
        r@ == proof_bytes@ + public_inputs@,
{
    let mut out: Vec<u8> = Vec::new();
    let mut i: usize = 0;
    while i < proof_bytes.len()
        invariant
            0 <= i <= proof_bytes@.len(),
            out@ == proof_bytes@.take(i as int),
        decreases proof_bytes@.len() - i,
    {
        out.push(proof_bytes[i]);
        proof {
            assert(out@ =~= proof_bytes@.take(i + 1));
        }
        i = i + 1;
    }
    proof {
        assert(proof_bytes@.take(proof_bytes@.len() as int) =~= proof_bytes@);
    }
    let mut j: usize = 0;
    while j < public_inputs.len()
        invariant
            0 <= j <= public_inputs@.len(),
            out@ == proof_bytes@ + public_inputs@.take(j as int),
        decreases public_inputs@.len() - j,
    {
        out.push(public_inputs[j]);
        proof {
            assert(out@ =~= proof_bytes@ + public_inputs@.take(j + 1));
        }
        j = j + 1;
    }
    proof {
        assert(proof_bytes@ + public_inputs@.take(public_inputs@.len() as int) =~= proof_bytes@
            + public_inputs@);
    }
    out
}

} // verus!
