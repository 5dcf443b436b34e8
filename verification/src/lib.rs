//! A shielded-value pool: depositors place value into a pooled escrow while
//! publishing only an opaque commitment; withdrawers later move value out by
//! presenting a zero-knowledge proof checked by an external verifier, without
//! revealing which deposit they are spending.
//!
//! The crate verifies the on-ledger state machine that makes the scheme sound:
//! the commitment-root history window, the anti-double-spend nullifier set,
//! the deposit/withdraw protocol, and the exact byte contract with the
//! external proof verifier. The host environment (account storage, value
//! transfer, clock, and the verifier invocation itself) sits outside and hands
//! this library plain values.

pub mod bytes32;
pub mod constants;
pub mod encoder;
pub mod errors;
pub mod nullifier_set;
pub mod pool;
pub mod proof_verifier;
pub mod protocol;
pub mod vault;
