use crate::bytes32::bytes32_eq;
use crate::constants::MAX_LEAVES;
use crate::constants::ROOT_HISTORY_SIZE;
use vstd::arithmetic::div_mod::lemma_add_mod_noop;
use vstd::arithmetic::div_mod::lemma_add_mod_noop_right;
use vstd::arithmetic::div_mod::lemma_fundamental_div_mod_converse_mod;
use vstd::arithmetic::div_mod::lemma_mod_division_less_than_divisor;
use vstd::arithmetic::div_mod::lemma_small_mod;
use vstd::prelude::*;

verus! {

/// Singleton pool record: the deposit counters and the ring buffer holding
/// the last `ROOT_HISTORY_SIZE` commitment-tree roots.
pub struct Pool {
    /// Identity that created the pool.
    pub authority: [u8; 32],
    /// Count of commitments accepted so far; the leaf index the next deposit
    /// will occupy.
    pub next_leaf_index: u64,
    /// Count of successful deposits.
    pub total_deposits: u64,
    /// Ring-buffer slot of the most recently recorded root.
    pub current_root_index: u64,
    /// The last `ROOT_HISTORY_SIZE` commitment-tree roots, one per slot.
    pub roots: [[u8; 32]; ROOT_HISTORY_SIZE],
}

impl Pool {
    /// Bounds every reachable pool state: the tree never holds more than
    /// `MAX_LEAVES` commitments, the ring pointer stays in range, and the
    /// deposit counter tracks the leaf counter.
    pub open spec fn wf(self) -> bool {
        &&& self.next_leaf_index <= MAX_LEAVES
        &&& self.total_deposits == self.next_leaf_index
        &&& self.current_root_index < ROOT_HISTORY_SIZE as u64
    }

    /// A root is acceptable for a withdrawal proof while some ring-buffer
    /// slot holds it; once overwritten it is permanently unknown.
    pub open spec fn known(self, root: Seq<u8>) -> bool {
        ring_contains(self.roots@, root)
    }

    /// Scans all ring-buffer slots for the root; slot order is irrelevant.
    pub fn is_known_root(&self, root: &[u8; 32]) -> (r: bool)
        ensures
            r == self.known(root@),
    {
        let mut i: usize = 0;
        while i < ROOT_HISTORY_SIZE
            invariant
                0 <= i <= ROOT_HISTORY_SIZE,
                forall|k: int| 0 <= k < i ==> self.roots@[k]@ != root@,
            decreases ROOT_HISTORY_SIZE - i,
        {
            if bytes32_eq(&self.roots[i], root) {
                return true;
            }
            i = i + 1;
        }
        false
    }
}

/// Whether some slot of a ring holds the given root bytes.
pub open spec fn ring_contains(roots: Seq<[u8; 32]>, root: Seq<u8>) -> bool {
    exists|i: int| 0 <= i < roots.len() && roots[i]@ == root
}

/// The ring after one deposit records `new_root`: the slot after `index` is
/// overwritten.
pub open spec fn ring_record(roots: Seq<[u8; 32]>, index: int, new_root: [u8; 32]) -> Seq<
    [u8; 32],
> {
    roots.update((index + 1) % (ROOT_HISTORY_SIZE as int), new_root)
}

/// The ring after a run of deposits records `new_roots` in order, starting
/// with the pointer at `index`.
pub open spec fn ring_record_all(
    roots: Seq<[u8; 32]>,
    index: int,
    new_roots: Seq<[u8; 32]>,
) -> Seq<[u8; 32]>
    decreases new_roots.len(),
{
    if new_roots.len() <= 0 {
        roots
    } else {
        ring_record_all(
            ring_record(roots, index, new_roots[0]),
            (index + 1) % (ROOT_HISTORY_SIZE as int),
            new_roots.drop_first(),
        )
    }
}

/// The slot that the run's deposit number `t` writes, counting from a ring
/// whose pointer stands at `index`.
pub open spec fn ring_slot(index: int, t: int) -> int {
    (index + t + 1) % (ROOT_HISTORY_SIZE as int)
}

/// Folding a residue into the left summand does not change a sum's residue.
proof fn lemma_mod_add_left(x: int, y: int)
    ensures
        ((x % (ROOT_HISTORY_SIZE as int)) + y) % (ROOT_HISTORY_SIZE as int) == (x + y) % (
        ROOT_HISTORY_SIZE as int),
{
    let ksz = ROOT_HISTORY_SIZE as int;
    lemma_add_mod_noop_right(x % ksz, y, ksz);
    lemma_add_mod_noop(x, y, ksz);
}

/// Advancing a ring slot by fewer steps than the ring size lands elsewhere.
proof fn lemma_ring_slot_distinct(a: int, t: int)
    requires
        0 <= a < ROOT_HISTORY_SIZE,
        1 <= t < ROOT_HISTORY_SIZE,
    ensures
        (a + t) % (ROOT_HISTORY_SIZE as int) != a,
{
    let ksz = ROOT_HISTORY_SIZE as int;
    if a + t < ksz {
        lemma_small_mod((a + t) as nat, ksz as nat);
    } else {
        assert(a + t == 1 * ksz + (a + t - ksz));
        lemma_fundamental_div_mod_converse_mod(a + t, ksz, 1, a + t - ksz);
    }
}

/// Slot-level effect of a run of deposits: deposit number `t` of the run
/// leaves its root in slot `ring_slot(index, t)` until the ring size's worth
/// of later deposits overwrites it, and slots the run never wrote keep what
/// they held.
proof fn lemma_ring_record_all_slots(roots: Seq<[u8; 32]>, index: int, new_roots: Seq<[u8; 32]>)
    requires
        roots.len() == ROOT_HISTORY_SIZE,
        0 <= index < ROOT_HISTORY_SIZE,
    ensures
        ring_record_all(roots, index, new_roots).len() == ROOT_HISTORY_SIZE,
        forall|t: int|
            0 <= t < new_roots.len() && new_roots.len() - (ROOT_HISTORY_SIZE as int) <= t
                ==> ring_record_all(roots, index, new_roots)[#[trigger] ring_slot(index, t)]
                == new_roots[t],
        forall|t: int|
            new_roots.len() <= t < ROOT_HISTORY_SIZE ==> ring_record_all(roots, index, new_roots)[
                #[trigger] ring_slot(index, t)
            ] == roots[ring_slot(index, t)],
    decreases new_roots.len(),
{
    let ksz = ROOT_HISTORY_SIZE as int;
    let k = new_roots.len() as int;
    if new_roots.len() == 0 {
    } else {
        let roots1 = ring_record(roots, index, new_roots[0]);
        let index1 = (index + 1) % ksz;
        let rest = new_roots.drop_first();
        let f = ring_record_all(roots, index, new_roots);
        lemma_mod_division_less_than_divisor(index + 1, ksz);
        lemma_ring_record_all_slots(roots1, index1, rest);
        assert(f == ring_record_all(roots1, index1, rest));
        assert forall|t: int| 0 <= t < k && k - ksz <= t implies f[#[trigger] ring_slot(
            index,
            t,
        )] == new_roots[t] by {
            lemma_mod_division_less_than_divisor(index + t + 1, ksz);
            if t == 0 {
                // The first deposit of the run wrote slot `index1`; the rest
                // of the run (at most ksz - 1 deposits here) never returns to
                // it, so the untouched-slot clause of the recursion gives it
                // back unchanged.
                assert(rest.len() <= ksz - 1);
                assert(f[ring_slot(index1, ksz - 1)] == roots1[ring_slot(index1, ksz - 1)]);
                assert(index1 + ksz == 1 * ksz + index1);
                lemma_fundamental_div_mod_converse_mod(index1 + ksz, ksz, 1, index1);
                assert(ring_slot(index1, ksz - 1) == index1);
                assert(roots1[index1] == new_roots[0]);
                assert(ring_slot(index, 0) == index1);
            } else {
                assert(f[ring_slot(index1, t - 1)] == rest[t - 1]);
                assert(ring_slot(index1, t - 1) == ring_slot(index, t)) by {
                    lemma_mod_add_left(index + 1, t);
                }
                assert(rest[t - 1] == new_roots[t]);
            }
        }
        assert forall|t: int| k <= t < ksz implies f[#[trigger] ring_slot(index, t)]
            == roots[ring_slot(index, t)] by {
            assert(f[ring_slot(index1, t - 1)] == roots1[ring_slot(index1, t - 1)]);
            assert(ring_slot(index1, t - 1) == ring_slot(index, t)) by {
                lemma_mod_add_left(index + 1, t);
            }
            lemma_mod_division_less_than_divisor(index + t + 1, ksz);
            assert(ring_slot(index, t) != index1) by {
                lemma_mod_add_left(index + 1, t);
                lemma_ring_slot_distinct(index1, t);
            }
            assert(roots1[ring_slot(index, t)] == roots[ring_slot(index, t)]);
        }
    }
}

/// After a run of at least ROOT_HISTORY_SIZE deposits, the ring holds exactly
/// the roots that the last ROOT_HISTORY_SIZE deposits of the run recorded:
/// any of those is known, and nothing else is.
pub proof fn lemma_root_history_window(roots: Seq<[u8; 32]>, index: int, new_roots: Seq<[u8; 32]>)
    requires
        roots.len() == ROOT_HISTORY_SIZE,
        0 <= index < ROOT_HISTORY_SIZE,
        new_roots.len() >= ROOT_HISTORY_SIZE,
    ensures
        forall|x: Seq<u8>|
            #[trigger] ring_contains(ring_record_all(roots, index, new_roots), x)
                <==> (exists|t: int|
                    new_roots.len() - (ROOT_HISTORY_SIZE as int) <= t < new_roots.len()
                        && new_roots[t]@ == x),
{
    let ksz = ROOT_HISTORY_SIZE as int;
    let k = new_roots.len() as int;
    let f = ring_record_all(roots, index, new_roots);
    lemma_ring_record_all_slots(roots, index, new_roots);
    assert forall|x: Seq<u8>| #[trigger] ring_contains(f, x) <==> (exists|t: int|
        k - ksz <= t < k && new_roots[t]@ == x) by {
        if ring_contains(f, x) {
            let i = choose|i: int| 0 <= i < f.len() && f[i]@ == x;
            let base = k - ksz;
            let c = index + base + 1;
            let d = (i - c) % ksz;
            lemma_mod_division_less_than_divisor(i - c, ksz);
            let t = base + d;
            assert(ring_slot(index, t) == i) by {
                lemma_add_mod_noop_right(c, i - c, ksz);
                lemma_small_mod(i as nat, ksz as nat);
            }
            assert(f[ring_slot(index, t)] == new_roots[t]);
            assert(k - ksz <= t < k && new_roots[t]@ == x);
        }
        if exists|t: int| k - ksz <= t < k && new_roots[t]@ == x {
            let t = choose|t: int| k - ksz <= t < k && new_roots[t]@ == x;
            assert(f[ring_slot(index, t)] == new_roots[t]);
            lemma_mod_division_less_than_divisor(index + t + 1, ksz);
            assert(0 <= ring_slot(index, t) < f.len() && f[ring_slot(index, t)]@ == x);
            assert(ring_contains(f, x));
        }
    }
}

/// A root recorded before the last ROOT_HISTORY_SIZE deposits of a run — and
/// not recorded again by them — is no longer known; any withdrawal proof
/// built against it now fails the root check. This bounds the staleness of a
/// usable proof to the last ROOT_HISTORY_SIZE deposits.
pub proof fn lemma_stale_root_unknown(
    roots: Seq<[u8; 32]>,
    index: int,
    new_roots: Seq<[u8; 32]>,
    stale: Seq<u8>,
)
    requires
        roots.len() == ROOT_HISTORY_SIZE,
        0 <= index < ROOT_HISTORY_SIZE,
        new_roots.len() >= ROOT_HISTORY_SIZE,
        forall|t: int|
            new_roots.len() - (ROOT_HISTORY_SIZE as int) <= t < new_roots.len()
                ==> #[trigger] new_roots[t]@ != stale,
    ensures
        !ring_contains(ring_record_all(roots, index, new_roots), stale),
{
    lemma_root_history_window(roots, index, new_roots);
}

} // verus!
