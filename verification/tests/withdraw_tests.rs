use private_transfers::constants::NULLIFIER_SET_CAPACITY;
use private_transfers::constants::SUNSPOT_VERIFIER_ID;
use private_transfers::errors::PrivateTransfersError;
use private_transfers::nullifier_set::NullifierSet;
use private_transfers::pool::Pool;
use private_transfers::proof_verifier::MockVerifier;
use private_transfers::protocol::deposit;
use private_transfers::protocol::initialize;
use private_transfers::protocol::withdraw;
use private_transfers::vault::Vault;

fn b32(x: u8) -> [u8; 32] {
    [x; 32]
}

/// A pool with one deposit of 5_000_000 under root `b32(60)`.
fn funded_pool() -> (Pool, NullifierSet, Vault) {
    let (mut pool, nullifier_set) = initialize(b32(1), b32(2));
    let mut vault = Vault::new();
    deposit(&mut pool, &mut vault, b32(59), b32(60), 5_000_000, 1).expect("deposit");
    (pool, nullifier_set, vault)
}

#[test]
fn withdraw_succeeds_and_records_nullifier() {
    let (pool, mut ns, mut vault) = funded_pool();
    let verifier = MockVerifier { verdict: true };
    let proof_bytes = vec![0xaau8; 256];
    let nullifier_hash = b32(70);
    let recipient = b32(71);

    let result = withdraw(
        &pool,
        &mut ns,
        &mut vault,
        &verifier,
        &SUNSPOT_VERIFIER_ID,
        &proof_bytes,
        nullifier_hash,
        b32(60),
        recipient,
        &recipient,
        3_000_000,
        1_700_000_123,
    );
    let event = result.expect("withdraw should succeed");

    assert_eq!(event.nullifier_hash, nullifier_hash);
    assert_eq!(event.recipient, recipient);
    assert_eq!(event.timestamp, 1_700_000_123);
    assert_eq!(vault.balance, 2_000_000);
    assert!(ns.is_nullifier_used(&nullifier_hash));
    assert_eq!(ns.nullifiers.len(), 1);
}

#[test]
fn withdraw_same_nullifier_twice_fails_second_time() {
    let (pool, mut ns, mut vault) = funded_pool();
    let verifier = MockVerifier { verdict: true };
    let proof_bytes = vec![1u8; 8];
    let nullifier_hash = b32(70);
    let recipient = b32(71);

    let first = withdraw(
        &pool,
        &mut ns,
        &mut vault,
        &verifier,
        &SUNSPOT_VERIFIER_ID,
        &proof_bytes,
        nullifier_hash,
        b32(60),
        recipient,
        &recipient,
        1_000_000,
        2,
    );
    assert!(first.is_ok());
    assert_eq!(vault.balance, 4_000_000);

    // The racing duplicate is serialized behind the first and sees the
    // updated set, even with a fresh valid proof, a known root, and enough
    // balance left.
    let second = withdraw(
        &pool,
        &mut ns,
        &mut vault,
        &verifier,
        &SUNSPOT_VERIFIER_ID,
        &proof_bytes,
        nullifier_hash,
        b32(60),
        recipient,
        &recipient,
        1_000_000,
        3,
    );
    assert_eq!(second, Err(PrivateTransfersError::NullifierUsed));
    assert_eq!(vault.balance, 4_000_000, "the vault must be debited exactly once");
    assert_eq!(ns.nullifiers.len(), 1);
}

#[test]
fn withdraw_unknown_root_fails_despite_valid_proof() {
    let (pool, mut ns, mut vault) = funded_pool();
    let verifier = MockVerifier { verdict: true };
    let proof_bytes = vec![1u8; 8];
    let recipient = b32(71);

    let result = withdraw(
        &pool,
        &mut ns,
        &mut vault,
        &verifier,
        &SUNSPOT_VERIFIER_ID,
        &proof_bytes,
        b32(70),
        b32(61),
        recipient,
        &recipient,
        1_000_000,
        2,
    );
    assert_eq!(result, Err(PrivateTransfersError::InvalidRoot));
    assert_eq!(vault.balance, 5_000_000);
    assert_eq!(ns.nullifiers.len(), 0);
}

#[test]
fn withdraw_destination_mismatch_fails_before_verification() {
    let (pool, mut ns, mut vault) = funded_pool();
    // A verifier that would reject: the refusal must come earlier, so the
    // verdict never matters.
    let verifier = MockVerifier { verdict: false };
    let proof_bytes = vec![1u8; 8];
    let recipient = b32(71);
    let other_destination = b32(72);

    let result = withdraw(
        &pool,
        &mut ns,
        &mut vault,
        &verifier,
        &SUNSPOT_VERIFIER_ID,
        &proof_bytes,
        b32(70),
        b32(60),
        recipient,
        &other_destination,
        1_000_000,
        2,
    );
    assert_eq!(result, Err(PrivateTransfersError::RecipientMismatch));
    assert_eq!(vault.balance, 5_000_000);
    assert_eq!(ns.nullifiers.len(), 0);
}

#[test]
fn withdraw_insufficient_vault_balance_fails() {
    let (pool, mut ns, mut vault) = funded_pool();
    let verifier = MockVerifier { verdict: true };
    let proof_bytes = vec![1u8; 8];
    let recipient = b32(71);

    let result = withdraw(
        &pool,
        &mut ns,
        &mut vault,
        &verifier,
        &SUNSPOT_VERIFIER_ID,
        &proof_bytes,
        b32(70),
        b32(60),
        recipient,
        &recipient,
        5_000_001,
        2,
    );
    assert_eq!(result, Err(PrivateTransfersError::InsufficientVaultBalance));
    assert_eq!(vault.balance, 5_000_000);
}

#[test]
fn withdraw_wrong_verifier_identity_fails() {
    let (pool, mut ns, mut vault) = funded_pool();
    let verifier = MockVerifier { verdict: true };
    let proof_bytes = vec![1u8; 8];
    let recipient = b32(71);
    let wrong_id = b32(73);

    let result = withdraw(
        &pool,
        &mut ns,
        &mut vault,
        &verifier,
        &wrong_id,
        &proof_bytes,
        b32(70),
        b32(60),
        recipient,
        &recipient,
        1_000_000,
        2,
    );
    assert_eq!(result, Err(PrivateTransfersError::InvalidVerifier));
    assert_eq!(vault.balance, 5_000_000);
    assert_eq!(ns.nullifiers.len(), 0);
}

#[test]
fn withdraw_rejected_proof_fails_and_changes_nothing() {
    let (pool, mut ns, mut vault) = funded_pool();
    let verifier = MockVerifier { verdict: false };
    let proof_bytes = vec![1u8; 8];
    let recipient = b32(71);

    let result = withdraw(
        &pool,
        &mut ns,
        &mut vault,
        &verifier,
        &SUNSPOT_VERIFIER_ID,
        &proof_bytes,
        b32(70),
        b32(60),
        recipient,
        &recipient,
        1_000_000,
        2,
    );
    assert_eq!(result, Err(PrivateTransfersError::ProofRejected));
    assert_eq!(vault.balance, 5_000_000);
    assert_eq!(ns.nullifiers.len(), 0);
}

#[test]
fn withdraw_fails_without_partial_effects_when_set_is_full() {
    let (pool, mut ns, mut vault) = funded_pool();
    for i in 0..NULLIFIER_SET_CAPACITY {
        ns.mark_nullifier_used(b32(i as u8)).expect("marking below capacity succeeds");
    }
    let verifier = MockVerifier { verdict: true };
    let proof_bytes = vec![1u8; 8];
    let recipient = b32(71);
    let mut fresh_nullifier = [0u8; 32];
    fresh_nullifier[0] = 9;
    fresh_nullifier[1] = 7;

    let result = withdraw(
        &pool,
        &mut ns,
        &mut vault,
        &verifier,
        &SUNSPOT_VERIFIER_ID,
        &proof_bytes,
        fresh_nullifier,
        b32(60),
        recipient,
        &recipient,
        1_000_000,
        2,
    );
    assert_eq!(result, Err(PrivateTransfersError::NullifierSetFull));
    assert_eq!(vault.balance, 5_000_000, "no value may move when the marking fails");
    assert_eq!(ns.nullifiers.len(), NULLIFIER_SET_CAPACITY);
}

#[test]
fn withdraw_checks_verifier_identity_before_everything() {
    let (pool, mut ns, mut vault) = funded_pool();
    let verifier = MockVerifier { verdict: true };
    let proof_bytes = vec![1u8; 8];
    let recipient = b32(71);
    let nullifier_hash = b32(70);
    let wrong_id = b32(73);

    withdraw(
        &pool,
        &mut ns,
        &mut vault,
        &verifier,
        &SUNSPOT_VERIFIER_ID,
        &proof_bytes,
        nullifier_hash,
        b32(60),
        recipient,
        &recipient,
        1_000_000,
        2,
    )
    .expect("first withdraw");

    // Spent nullifier and wrong verifier identity at once: the identity is
    // validated before any protocol step runs.
    let result = withdraw(
        &pool,
        &mut ns,
        &mut vault,
        &verifier,
        &wrong_id,
        &proof_bytes,
        nullifier_hash,
        b32(60),
        recipient,
        &recipient,
        1_000_000,
        3,
    );
    assert_eq!(result, Err(PrivateTransfersError::InvalidVerifier));
    assert_eq!(vault.balance, 4_000_000);
}

#[test]
fn withdraw_checks_nullifier_before_root() {
    let (pool, mut ns, mut vault) = funded_pool();
    let verifier = MockVerifier { verdict: true };
    let proof_bytes = vec![1u8; 8];
    let recipient = b32(71);
    let nullifier_hash = b32(70);

    withdraw(
        &pool,
        &mut ns,
        &mut vault,
        &verifier,
        &SUNSPOT_VERIFIER_ID,
        &proof_bytes,
        nullifier_hash,
        b32(60),
        recipient,
        &recipient,
        1_000_000,
        2,
    )
    .expect("first withdraw");

    // Spent nullifier and unknown root at once: the nullifier check comes
    // first.
    let result = withdraw(
        &pool,
        &mut ns,
        &mut vault,
        &verifier,
        &SUNSPOT_VERIFIER_ID,
        &proof_bytes,
        nullifier_hash,
        b32(61),
        recipient,
        &recipient,
        1_000_000,
        3,
    );
    assert_eq!(result, Err(PrivateTransfersError::NullifierUsed));
}
