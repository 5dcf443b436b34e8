use crate::bytes32::bytes32_eq;
use crate::bytes32::zero_bytes32;
use crate::constants::EMPTY_ROOT;
use crate::constants::MAX_LEAVES;
use crate::constants::MIN_DEPOSIT_AMOUNT;
use crate::constants::NULLIFIER_SET_CAPACITY;
use crate::constants::ROOT_HISTORY_SIZE;
use crate::constants::SUNSPOT_VERIFIER_ID;
use crate::encoder::encode_public_inputs;
use crate::encoder::encoded_public_inputs;
use crate::errors::PrivateTransfersError;
use crate::nullifier_set::NullifierSet;
use crate::pool::ring_record;
use crate::pool::Pool;
use crate::proof_verifier::ProofVerifier;
use crate::vault::Vault;
use vstd::prelude::*;

verus! {

/// Published on every successful deposit; off-ledger indexers reconstruct the
/// commitment tree from the (commitment, leaf index) pairs.
#[derive(Clone, Copy, Debug, PartialEq, Eq)]
pub struct DepositEvent {
    /// Opaque commitment the depositor published.
    pub commitment: [u8; 32],
    /// Leaf index the commitment occupied.
    pub leaf_index: u64,
    /// Host clock reading at the time of the deposit.
    pub timestamp: i64,
    /// Tree root after inserting the commitment, as the depositor computed it.
    pub new_root: [u8; 32],
}

/// Published on every successful withdrawal.
#[derive(Clone, Copy, Debug, PartialEq, Eq)]
pub struct WithdrawEvent {
    /// Spent-note marker that was recorded.
    pub nullifier_hash: [u8; 32],
    /// Identity the funds went to.
    pub recipient: [u8; 32],
    /// Host clock reading at the time of the withdrawal.
    pub timestamp: i64,
}

/// Creates the pool and its nullifier set: counters at zero, ring-buffer slot
/// 0 holding the well-known empty-tree root, and the nullifier set bound to
/// the pool's identity.
pub fn initialize(authority: [u8; 32], pool_id: [u8; 32]) -> (r: (Pool, NullifierSet))
    ensures
        r.0.wf(),
        r.1.wf(),
        r.0.authority == authority,
        r.0.next_leaf_index == 0,
        r.0.total_deposits == 0,
        r.0.current_root_index == 0,
        r.0.roots@[0]@ == EMPTY_ROOT@,
        forall|i: int| 1 <= i < ROOT_HISTORY_SIZE ==> r.0.roots@[i]@ == zero_bytes32(),
        r.0.known(EMPTY_ROOT@),
        r.1.pool == pool_id,
        r.1.nullifiers@.len() == 0,
{
    let mut roots: [[u8; 32]; ROOT_HISTORY_SIZE] = [[0u8; 32]; 10];
    roots[0] = EMPTY_ROOT;
    let pool = Pool {
        authority,
        next_leaf_index: 0,
        total_deposits: 0,
        current_root_index: 0,
        roots,
    };
    let nullifier_set = NullifierSet { pool: pool_id, nullifiers: Vec::new() };
    proof {
        assert(pool.roots@[0]@ == EMPTY_ROOT@);
        assert forall|i: int| 1 <= i < ROOT_HISTORY_SIZE implies pool.roots@[i]@
            == zero_bytes32() by {
            assert(pool.roots@[i]@ =~= zero_bytes32());
        }
    }
    (pool, nullifier_set)
}

/// Why a deposit is refused, if it is: a full tree first, then an amount
/// below the minimum. `None` means the deposit is accepted.
pub open spec fn deposit_refusal(pool: Pool, amount: u64) -> Option<PrivateTransfersError> {
    if pool.next_leaf_index >= MAX_LEAVES {
        Some(PrivateTransfersError::TreeFull)
    } else if amount < MIN_DEPOSIT_AMOUNT {
        Some(PrivateTransfersError::DepositTooSmall)
    } else {
        None
    }
}

/// Accepts a deposit: moves `amount` into the vault, records the
/// depositor-computed `new_root` into the ring buffer, advances both
/// counters, and reports the deposit event. On refusal nothing changes.
///
/// The tree insertion itself is computed off-ledger by the depositor; an
/// incorrect `new_root` is simply never accepted by any future withdrawal's
/// root check, so a bad client can only harm itself.
pub fn deposit(
    pool: &mut Pool,
    vault: &mut Vault,
    commitment: [u8; 32],
    new_root: [u8; 32],
    amount: u64,
    timestamp: i64,
) -> (r: Result<DepositEvent, PrivateTransfersError>)
    requires
        old(pool).wf(),
        deposit_refusal(*old(pool), amount) is None ==> old(vault).balance + amount
            <= u64::MAX,
    ensures
        final(pool).wf(),
        final(pool).authority == old(pool).authority,
        ({
            match deposit_refusal(*old(pool), amount) {
                Some(e) => r == Err::<DepositEvent, PrivateTransfersError>(e) && *final(pool)
                    == *old(pool) && *final(vault) == *old(vault),
                None => {
                    &&& r == Ok::<DepositEvent, PrivateTransfersError>(
                        (DepositEvent {
                            commitment,
                            leaf_index: old(pool).next_leaf_index,
                            timestamp,
                            new_root,
                        }),
                    )
                    &&& final(pool).next_leaf_index == old(pool).next_leaf_index + 1
                    &&& final(pool).total_deposits == old(pool).total_deposits + 1
                    &&& final(pool).current_root_index == (old(pool).current_root_index + 1) % (
                    ROOT_HISTORY_SIZE as int)
                    &&& final(pool).roots@ == ring_record(
                        old(pool).roots@,
                        old(pool).current_root_index as int,
                        new_root,
                    )
                    &&& final(pool).known(new_root@)
                    &&& final(vault).balance == old(vault).balance + amount
                },
            }
        }),
{
    if pool.next_leaf_index >= MAX_LEAVES {
        return Err(PrivateTransfersError::TreeFull);
    }
    if amount < MIN_DEPOSIT_AMOUNT {
        return Err(PrivateTransfersError::DepositTooSmall);
    }
    vault.credit(amount);
    let leaf_index = pool.next_leaf_index;
    let new_root_index: usize = ((pool.current_root_index + 1) % (ROOT_HISTORY_SIZE as u64))
        as usize;
    pool.current_root_index = new_root_index as u64;
    pool.roots[new_root_index] = new_root;
    pool.next_leaf_index = pool.next_leaf_index + 1;
    pool.total_deposits = pool.total_deposits + 1;
    proof {
        assert(pool.roots@ == ring_record(
            old(pool).roots@,
            old(pool).current_root_index as int,
            new_root,
        ));
        assert(pool.known(new_root@)) by {
            assert(pool.roots@[new_root_index as int]@ == new_root@);
        }
    }
    Ok(DepositEvent { commitment, leaf_index, timestamp, new_root })
}

/// Why a withdrawal is refused, if it is, in the order the protocol checks:
/// a wrong verifier identity first — the named verifier is validated before
/// any protocol step runs, as account validation precedes the instruction
/// body — then a spent nullifier, an unknown root, a payout destination
/// other than the recipient bound into the proof, an underfunded vault, a
/// rejected proof, and finally a full nullifier set. `None` means the
/// withdrawal goes through.
pub open spec fn withdraw_refusal(
    pool: Pool,
    nullifier_set: NullifierSet,
    vault: Vault,
    nullifier_hash: Seq<u8>,
    root: Seq<u8>,
    recipient: Seq<u8>,
    destination: Seq<u8>,
    verifier_id: Seq<u8>,
    amount: u64,
    accepted: bool,
) -> Option<PrivateTransfersError> {
    if verifier_id != SUNSPOT_VERIFIER_ID@ {
        Some(PrivateTransfersError::InvalidVerifier)
    } else if nullifier_set.used(nullifier_hash) {
        Some(PrivateTransfersError::NullifierUsed)
    } else if !pool.known(root) {
        Some(PrivateTransfersError::InvalidRoot)
    } else if destination != recipient {
        Some(PrivateTransfersError::RecipientMismatch)
    } else if vault.balance < amount {
        Some(PrivateTransfersError::InsufficientVaultBalance)
    } else if !accepted {
        Some(PrivateTransfersError::ProofRejected)
    } else if nullifier_set.nullifiers@.len() >= NULLIFIER_SET_CAPACITY {
        Some(PrivateTransfersError::NullifierSetFull)
    } else {
        None
    }
}

/// Settles a withdrawal: validates the named verifier identity, runs the
/// cheap local checks in order, delegates cryptographic acceptance to the
/// verifier with the proof bytes and the encoded public inputs, then marks
/// the nullifier spent and debits the vault. The first failed check aborts
/// the whole operation with every piece of state unchanged.
///
/// `destination` is the account actually supplied for the payout; requiring
/// it to equal the `recipient` bound into the proof's public inputs keeps an
/// observer from redirecting a broadcast withdrawal to another account.
pub fn withdraw<V: ProofVerifier>(
    pool: &Pool,
    nullifier_set: &mut NullifierSet,
    vault: &mut Vault,
    verifier: &V,
    verifier_id: &[u8; 32],
    proof_bytes: &Vec<u8>,
    nullifier_hash: [u8; 32],
    root: [u8; 32],
    recipient: [u8; 32],
    destination: &[u8; 32],
    amount: u64,
    timestamp: i64,
) -> (r: Result<WithdrawEvent, PrivateTransfersError>)
    requires
        old(nullifier_set).wf(),
    ensures
        final(nullifier_set).wf(),
        final(nullifier_set).pool == old(nullifier_set).pool,
        ({
            let accepted = verifier.accepts(
                proof_bytes@,
                encoded_public_inputs(root@, nullifier_hash@, recipient@, amount),
            );
            match withdraw_refusal(
                *pool,
                *old(nullifier_set),
                *old(vault),
                nullifier_hash@,
                root@,
                recipient@,
                destination@,
                verifier_id@,
                amount,
                accepted,
            ) {
                Some(e) => {
                    &&& r == Err::<WithdrawEvent, PrivateTransfersError>(e)
                    &&& *final(nullifier_set) == *old(nullifier_set)
                    &&& *final(vault) == *old(vault)
                },
                None => {
                    &&& r == Ok::<WithdrawEvent, PrivateTransfersError>(
                        (WithdrawEvent { nullifier_hash, recipient, timestamp }),
                    )
                    &&& final(nullifier_set).nullifiers@
                        == old(nullifier_set).nullifiers@.push(nullifier_hash)
                    &&& final(vault).balance == old(vault).balance - amount
                },
            }
        }),
{
    if !bytes32_eq(verifier_id, &SUNSPOT_VERIFIER_ID) {
        return Err(PrivateTransfersError::InvalidVerifier);
    }
    if nullifier_set.is_nullifier_used(&nullifier_hash) {
        return Err(PrivateTransfersError::NullifierUsed);
    }
    if !pool.is_known_root(&root) {
        return Err(PrivateTransfersError::InvalidRoot);
    }
    if !bytes32_eq(destination, &recipient) {
        return Err(PrivateTransfersError::RecipientMismatch);
    }
    if vault.balance < amount {
        return Err(PrivateTransfersError::InsufficientVaultBalance);
    }
    let public_inputs = encode_public_inputs(&root, &nullifier_hash, &recipient, amount);
    if !verifier.verify(proof_bytes, &public_inputs) {
        return Err(PrivateTransfersError::ProofRejected);
    }
    match nullifier_set.mark_nullifier_used(nullifier_hash) {
        Ok(()) => {},
        Err(e) => {
            return Err(e);
        },
    }
    vault.debit(amount);
    Ok(WithdrawEvent { nullifier_hash, recipient, timestamp })
}

/// A withdrawal naming any verifier identity other than the deployed one is
/// refused with InvalidVerifier before any protocol step runs: the refusal
/// does not depend on the nullifier, the root, the recipient, the balance,
/// or the verdict.
pub proof fn lemma_wrong_verifier_refused(
    pool: Pool,
    nullifier_set: NullifierSet,
    vault: Vault,
    nullifier_hash: Seq<u8>,
    root: Seq<u8>,
    recipient: Seq<u8>,
    destination: Seq<u8>,
    verifier_id: Seq<u8>,
    amount: u64,
    accepted: bool,
)
    requires
        verifier_id != SUNSPOT_VERIFIER_ID@,
    ensures
        withdraw_refusal(
            pool,
            nullifier_set,
            vault,
            nullifier_hash,
            root,
            recipient,
            destination,
            verifier_id,
            amount,
            accepted,
        ) == Some(PrivateTransfersError::InvalidVerifier),
{
}

/// A withdrawal presenting an already-spent nullifier to the deployed
/// verifier is refused with NullifierUsed, even with a fresh valid proof, a
/// known root, and a matching recipient.
pub proof fn lemma_used_nullifier_refused(
    pool: Pool,
    nullifier_set: NullifierSet,
    vault: Vault,
    nullifier_hash: Seq<u8>,
    root: Seq<u8>,
    recipient: Seq<u8>,
    destination: Seq<u8>,
    verifier_id: Seq<u8>,
    amount: u64,
    accepted: bool,
)
    requires
        verifier_id == SUNSPOT_VERIFIER_ID@,
        nullifier_set.used(nullifier_hash),
    ensures
        withdraw_refusal(
            pool,
            nullifier_set,
            vault,
            nullifier_hash,
            root,
            recipient,
            destination,
            verifier_id,
            amount,
            accepted,
        ) == Some(PrivateTransfersError::NullifierUsed),
{
}

/// A withdrawal presenting a root outside the recent-root window is refused
/// with InvalidRoot, regardless of proof validity.
pub proof fn lemma_unknown_root_refused(
    pool: Pool,
    nullifier_set: NullifierSet,
    vault: Vault,
    nullifier_hash: Seq<u8>,
    root: Seq<u8>,
    recipient: Seq<u8>,
    destination: Seq<u8>,
    verifier_id: Seq<u8>,
    amount: u64,
    accepted: bool,
)
    requires
        verifier_id == SUNSPOT_VERIFIER_ID@,
        !nullifier_set.used(nullifier_hash),
        !pool.known(root),
    ensures
        withdraw_refusal(
            pool,
            nullifier_set,
            vault,
            nullifier_hash,
            root,
            recipient,
            destination,
            verifier_id,
            amount,
            accepted,
        ) == Some(PrivateTransfersError::InvalidRoot),
{
}

/// A withdrawal whose payout destination differs from the recipient bound
/// into the proof is refused with RecipientMismatch before any proof
/// verification is attempted: the refusal does not depend on the verdict.
pub proof fn lemma_destination_mismatch_refused(
    pool: Pool,
    nullifier_set: NullifierSet,
    vault: Vault,
    nullifier_hash: Seq<u8>,
    root: Seq<u8>,
    recipient: Seq<u8>,
    destination: Seq<u8>,
    verifier_id: Seq<u8>,
    amount: u64,
    accepted: bool,
)
    requires
        verifier_id == SUNSPOT_VERIFIER_ID@,
        !nullifier_set.used(nullifier_hash),
        pool.known(root),
        destination != recipient,
    ensures
        withdraw_refusal(
            pool,
            nullifier_set,
            vault,
            nullifier_hash,
            root,
            recipient,
            destination,
            verifier_id,
            amount,
            accepted,
        ) == Some(PrivateTransfersError::RecipientMismatch),
{
}

/// Of two withdrawals presenting the same nullifier to the deployed
/// verifier, at most one goes through: after the first succeeds (it pushed
/// the nullifier onto the set), the second is refused with NullifierUsed
/// whatever its proof, root, recipient, or verdict, and so by the withdraw
/// contract it leaves the vault balance unchanged.
pub proof fn lemma_second_withdrawal_refused(
    pool: Pool,
    before: NullifierSet,
    after: NullifierSet,
    vault: Vault,
    nullifier_hash: [u8; 32],
    root: Seq<u8>,
    recipient: Seq<u8>,
    destination: Seq<u8>,
    verifier_id: Seq<u8>,
    amount: u64,
    accepted: bool,
)
    requires
        verifier_id == SUNSPOT_VERIFIER_ID@,
        after.nullifiers@ == before.nullifiers@.push(nullifier_hash),
    ensures
        withdraw_refusal(
            pool,
            after,
            vault,
            nullifier_hash@,
            root,
            recipient,
            destination,
            verifier_id,
            amount,
            accepted,
        ) == Some(PrivateTransfersError::NullifierUsed),
{
    assert(after.used(nullifier_hash@)) by {
        assert(after.nullifiers@[before.nullifiers@.len() as int]@ == nullifier_hash@);
    }
}

} // verus!
