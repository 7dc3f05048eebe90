//! Cyclic index arithmetic shared by the menu selector and the star map.
//!
//! A cyclic index points into a fixed non-empty ordered sequence and wraps
//! from the last element back to the first (and vice versa) under
//! increment and decrement. Both steps follow the single formula
//! `(k + d + n) % n` with `d` either `+1` or `-1`, so the wrap is symmetric
//! in the two directions.

use vstd::prelude::*;
use vstd::arithmetic::div_mod::{
    lemma_add_mod_noop_right, lemma_mod_multiples_vanish, lemma_mod_self_0, lemma_small_mod,
};

verus! {

/// The index one step forward of `k` over `n` items, wrapping past the end.
pub open spec fn next_index(k: int, n: int) -> int {
    (k + 1) % n
}

/// The index one step backward of `k` over `n` items, wrapping before the
/// start. Equal to `(k - 1 + n) % n`, written so that both operands stay
/// non-negative.
pub open spec fn previous_index(k: int, n: int) -> int {
    (k + n - 1) % n
}

/// One cyclic step forward over `n` items.
pub fn next_of(k: usize, n: usize) -> (r: usize)
    requires
        0 < n,
        k < n,
    ensures
        r as int == next_index(k as int, n as int),
        r < n,
{
    proof {
        if k + 1 == n {
            lemma_mod_self_0(n as int);
        } else {
            lemma_small_mod((k + 1) as nat, n as nat);
        }
    }
    if k + 1 == n {
        0
    } else {
        k + 1
    }
}

/// One cyclic step backward over `n` items.
pub fn previous_of(k: usize, n: usize) -> (r: usize)
    requires
        0 < n,
        k < n,
    ensures
        r as int == previous_index(k as int, n as int),
        r < n,
{
    proof {
        if k == 0 {
            lemma_small_mod((n - 1) as nat, n as nat);
        } else {
            lemma_mod_multiples_vanish(1, k - 1, n as int);
            lemma_small_mod((k - 1) as nat, n as nat);
        }
    }
    if k == 0 {
        n - 1
    } else {
        k - 1
    }
}

/// `count` forward steps from `k` over `n` items.
pub open spec fn iterate_next(k: int, n: int, count: nat) -> int
    decreases count,
{
    if count == 0 {
        k
    } else {
        next_index(iterate_next(k, n, (count - 1) as nat), n)
    }
}

/// `count` backward steps from `k` over `n` items.
pub open spec fn iterate_previous(k: int, n: int, count: nat) -> int
    decreases count,
{
    if count == 0 {
        k
    } else {
        previous_index(iterate_previous(k, n, (count - 1) as nat), n)
    }
}

/// Stepping forward `count` times lands on `(k + count) % n`.
pub proof fn lemma_iterate_next_adds(k: int, n: int, count: nat)
    requires
        0 < n,
        0 <= k < n,
    ensures
        iterate_next(k, n, count) == (k + count) % n,
    decreases count,
{
    if count == 0 {
        lemma_small_mod(k as nat, n as nat);
    } else {
        lemma_iterate_next_adds(k, n, (count - 1) as nat);
        lemma_add_mod_noop_right(1, k + count - 1, n);
    }
}

/// Stepping backward `count` times lands on `(k - count) % n`.
pub proof fn lemma_iterate_previous_subtracts(k: int, n: int, count: nat)
    requires
        0 < n,
        0 <= k < n,
    ensures
        iterate_previous(k, n, count) == (k - count) % n,
    decreases count,
{
    if count == 0 {
        lemma_small_mod(k as nat, n as nat);
    } else {
        lemma_iterate_previous_subtracts(k, n, (count - 1) as nat);
        lemma_add_mod_noop_right(n - 1, k - count + 1, n);
        lemma_mod_multiples_vanish(1, k - count, n);
    }
}

/// Cyclic closure: over `n` items, `n` forward steps return to the start,
/// and so do `n` backward steps.
pub proof fn lemma_cycle_closure(k: int, n: int)
    requires
        0 < n,
        0 <= k < n,
    ensures
        iterate_next(k, n, n as nat) == k,
        iterate_previous(k, n, n as nat) == k,
{
    lemma_iterate_next_adds(k, n, n as nat);
    lemma_mod_multiples_vanish(1, k, n);
    lemma_small_mod(k as nat, n as nat);
    lemma_iterate_previous_subtracts(k, n, n as nat);
    lemma_mod_multiples_vanish(-1, k, n);
}

/// Inverse pair: one step backward then one forward returns to the start,
/// and symmetrically one forward then one backward. This is the wrap-around
/// symmetry of the two directions.
pub proof fn lemma_step_inverse(k: int, n: int)
    requires
        0 < n,
        0 <= k < n,
    ensures
        next_index(previous_index(k, n), n) == k,
        previous_index(next_index(k, n), n) == k,
{
    lemma_add_mod_noop_right(1, k + n - 1, n);
    lemma_mod_multiples_vanish(1, k, n);
    lemma_small_mod(k as nat, n as nat);
    lemma_add_mod_noop_right(n - 1, k + 1, n);
}

} // verus!
