use vstd::prelude::*;

verus! {

/// Why a deposit or withdrawal was rejected. Every rejection aborts the whole
/// operation and leaves pool, nullifier set, and vault unchanged.
#[derive(Clone, Copy, Debug, PartialEq, Eq, Structural)]
pub enum PrivateTransfersError {
    /// The commitment tree has reached `MAX_LEAVES` leaves.
    TreeFull,
    /// The presented root is not in the recent-root window.
    InvalidRoot,
    /// The nullifier was already marked spent.
    NullifierUsed,
    /// The deposit amount is below `MIN_DEPOSIT_AMOUNT`.
    DepositTooSmall,
    /// The nullifier set has reached `NULLIFIER_SET_CAPACITY` entries.
    NullifierSetFull,
    /// The payout destination differs from the recipient bound into the proof.
    RecipientMismatch,
    /// The named verifier is not the deployed verifier component.
    InvalidVerifier,
    /// The vault holds less than the requested amount.
    InsufficientVaultBalance,
    /// The external verifier rejected the proof.
    ProofRejected,
}

} // verus!
