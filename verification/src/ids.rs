//! Allocation of record identifiers.
//!
//! An identifier is a 128-bit number. A new record gets the first
//! identifier at or after a given seed (cyclically) that is not taken, so
//! a seed that is free is used as it is.

use vstd::prelude::*;

verus! {

/// The number of identifiers there are.
pub open spec fn id_space() -> nat {
    0x1_0000_0000_0000_0000_0000_0000_0000_0000nat
}

/// The identifier `n` steps after `seed`, wrapping around at the end of
/// the identifier space.
pub open spec fn id_after(seed: u128, n: nat) -> u128 {
    ((seed + n) % (id_space() as int)) as u128
}

/// `n` is the least number of steps from `seed` that lands on an
/// identifier outside `taken`.
pub open spec fn is_first_free(taken: Set<u128>, seed: u128, n: nat) -> bool {
    &&& !taken.contains(id_after(seed, n))
    &&& forall|m: nat| m < n ==> taken.contains(#[trigger] id_after(seed, m))
}

/// The first identifier at or after `seed` that is not in `taken`.
///
/// It is determined whenever `taken` is finite and smaller than the
/// identifier space (see [`lemma_fresh_id`]).
pub open spec fn fresh_id(taken: Set<u128>, seed: u128) -> u128 {
    id_after(seed, choose|n: nat| is_first_free(taken, seed, n))
}

/// Distinct step counts below the size of the identifier space land on
/// distinct identifiers.
pub proof fn lemma_id_after_injective(seed: u128, m: nat, n: nat)
    requires
        m < n < id_space(),
    ensures
        id_after(seed, m) != id_after(seed, n),
{
}

/// A run of `k` consecutive identifiers that are all taken cannot be longer
/// than the set of taken identifiers.
pub proof fn lemma_taken_run_is_short(taken: Set<u128>, seed: u128, k: nat)
    requires
        taken.finite(),
        k <= id_space(),
        forall|m: nat| m < k ==> taken.contains(#[trigger] id_after(seed, m)),
    ensures
        k <= taken.len(),
    decreases k,
{
    if k > 0 {
        let last = id_after(seed, (k - 1) as nat);
        let rest = taken.remove(last);
        assert forall|m: nat| m < (k - 1) as nat implies rest.contains(
            #[trigger] id_after(seed, m),
        ) by {
            lemma_id_after_injective(seed, m, (k - 1) as nat);
        }
        lemma_taken_run_is_short(rest, seed, (k - 1) as nat);
    }
}

/// Only one step count can be the first free one.
pub proof fn lemma_first_free_is_unique(taken: Set<u128>, seed: u128, m: nat, n: nat)
    requires
        is_first_free(taken, seed, m),
        is_first_free(taken, seed, n),
    ensures
        m == n,
{
    if m < n {
        assert(taken.contains(id_after(seed, m)));
    } else if n < m {
        assert(taken.contains(id_after(seed, n)));
    }
}

/// When the first `k` identifiers from `seed` on are taken, the first free
/// one is found at `k` or later.
proof fn lemma_first_free_from(taken: Set<u128>, seed: u128, k: nat) -> (n: nat)
    requires
        taken.finite(),
        taken.len() < id_space(),
        k <= taken.len(),
        forall|m: nat| m < k ==> taken.contains(#[trigger] id_after(seed, m)),
    ensures
        is_first_free(taken, seed, n),
        k <= n <= taken.len(),
    decreases taken.len() - k,
{
    if taken.contains(id_after(seed, k)) {
        lemma_taken_run_is_short(taken, seed, k + 1);
        lemma_first_free_from(taken, seed, k + 1)
    } else {
        k
    }
}

/// While identifiers remain, a fresh one exists: it is not taken, it is
/// the seed itself when the seed is free, and it is reached after at most
/// as many steps as there are taken identifiers.
pub proof fn lemma_fresh_id(taken: Set<u128>, seed: u128)
    requires
        taken.finite(),
        taken.len() < id_space(),
    ensures
        !taken.contains(fresh_id(taken, seed)),
        !taken.contains(seed) ==> fresh_id(taken, seed) == seed,
        exists|n: nat| n <= taken.len() && #[trigger] is_first_free(taken, seed, n),
{
    let n = lemma_first_free_from(taken, seed, 0);
    let c = choose|c: nat| is_first_free(taken, seed, c);
    lemma_first_free_is_unique(taken, seed, n, c);
    if !taken.contains(seed) {
        assert(id_after(seed, 0) == seed);
        assert(is_first_free(taken, seed, 0));
        lemma_first_free_is_unique(taken, seed, 0, c);
    }
}

} // verus!
