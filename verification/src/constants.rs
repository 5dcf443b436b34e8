use vstd::prelude::*;

verus! {

/// Depth of the commitment tree maintained off-ledger by clients.
pub const TREE_DEPTH: usize = 10;

/// Maximum number of commitments the tree can hold: 2^TREE_DEPTH.
pub const MAX_LEAVES: u64 = 1024;

/// Smallest deposit the pool accepts, in value units.
pub const MIN_DEPOSIT_AMOUNT: u64 = 1_000_000;

/// Number of recent commitment-tree roots kept acceptable for withdrawals.
pub const ROOT_HISTORY_SIZE: usize = 10;

/// Upper bound on the number of spent-note markers one pool can record.
pub const NULLIFIER_SET_CAPACITY: usize = 256;

/// Root of the empty commitment tree; occupies slot 0 at pool creation.
pub const EMPTY_ROOT: [u8; 32] = [
    0x2c, 0xb2, 0x57, 0x0a, 0x37, 0x3a, 0x05, 0x5f, 0x49, 0x3d, 0xc4, 0xf1, 0x14, 0x5b, 0x27,
    0x61, 0x62, 0x3e, 0x59, 0x12, 0x42, 0x08, 0x3b, 0x38, 0x21, 0xaa, 0x3b, 0x48, 0x9d, 0x15,
    0x3c, 0x06,
];

/// Identity of the deployed proof-verifier component; a withdrawal must name
/// exactly this identity for the verification call.
pub const SUNSPOT_VERIFIER_ID: [u8; 32] = [
    0xaa, 0x5c, 0xed, 0x93, 0x91, 0xd3, 0xc5, 0x25, 0x87, 0xdb, 0xf5, 0x47, 0xcd, 0x6d, 0x74,
    0xb8, 0xf8, 0x4c, 0x9d, 0x56, 0x1b, 0xc7, 0x5b, 0x72, 0x2e, 0x5b, 0xac, 0xe8, 0xff, 0xc4,
    0x30, 0xfc,
];

} // verus!
