//! Bounded normalization, stated over exact integers.
//!
//! The accumulator returns `(sum over k of amp_k * n_k) / (sum over k of
//! amp_k)`: a weighted sum of primitive values divided by the sum of its
//! own weights. Whenever every weight is nonnegative and every primitive
//! value is bounded in magnitude, the weighted sum is bounded by the
//! weight sum times that magnitude — so the normalized quotient can never
//! leave the primitive's own range. The lemmas here prove exactly that,
//! over mathematical integers (a value bounded by `bound` standing for a
//! primitive value in `[-1, 1]` scaled by `bound`).

use vstd::arithmetic::div_mod::{lemma_div_is_ordered, lemma_div_multiples_vanish};
use vstd::arithmetic::mul::lemma_mul_is_distributive_add;
use vstd::arithmetic::power::{lemma_pow_positive, pow};
use vstd::prelude::*;

verus! {

/// The sum of a sequence of integers.
pub open spec fn sum_seq(s: Seq<int>) -> int
    decreases s.len(),
{
    if s.len() == 0 {
        0
    } else {
        sum_seq(s.drop_last()) + s.last()
    }
}

/// The weighted sum `amps[0] * vals[0] + ... + amps[n-1] * vals[n-1]`.
pub open spec fn weighted_sum(amps: Seq<int>, vals: Seq<int>) -> int
    decreases amps.len(),
{
    if amps.len() == 0 || vals.len() == 0 {
        0
    } else {
        weighted_sum(amps.drop_last(), vals.drop_last()) + amps.last() * vals.last()
    }
}

/// Bounded accumulation: with nonnegative weights `amps` (the per-octave
/// amplitudes) and values `vals` each within `[-bound, bound]` (the
/// primitive's outputs, scaled), the weighted octave sum stays within
/// `bound` times the sum of the weights — the accumulator's divisor.
pub proof fn lemma_bounded_normalization(amps: Seq<int>, vals: Seq<int>, bound: int)
    requires
        amps.len() == vals.len(),
        0 <= bound,
        forall|k: int| 0 <= k < amps.len() ==> 0 <= #[trigger] amps[k],
        forall|k: int| 0 <= k < vals.len() ==> -bound <= #[trigger] vals[k] <= bound,
    ensures
        -bound * sum_seq(amps) <= weighted_sum(amps, vals) <= bound * sum_seq(amps),
    decreases amps.len(),
{
    if amps.len() == 0 {
        assert(-bound * 0 <= 0 <= bound * 0) by (nonlinear_arith)
            requires
                0 <= bound,
        ;
    } else {
        let a = amps.last();
        let v = vals.last();
        lemma_bounded_normalization(amps.drop_last(), vals.drop_last(), bound);
        assert(-bound * a <= a * v <= bound * a) by (nonlinear_arith)
            requires
                0 <= a,
                -bound <= v <= bound,
        ;
        lemma_mul_is_distributive_add(bound, sum_seq(amps.drop_last()), a);
        lemma_mul_is_distributive_add(-bound, sum_seq(amps.drop_last()), a);
    }
}

/// A gain in `(0, 1]`, written as the exact ratio `g_num / g_den` with
/// `0 < g_num <= g_den`, gives every octave a positive amplitude of at
/// most one: `0 < pow(g_num, k) <= pow(g_den, k)`, so the amplitude
/// `pow(g_num, k) / pow(g_den, k)` of octave `k` lies in `(0, 1]`. The
/// normalization divisor — a sum of such amplitudes starting from the
/// unit for octave zero — is therefore positive, and the weights feeding
/// [`lemma_bounded_normalization`] are the nonnegative ones it asks for.
pub proof fn lemma_amplitudes_positive(g_num: int, g_den: int, k: nat)
    requires
        0 < g_num <= g_den,
    ensures
        0 < pow(g_num, k) <= pow(g_den, k),
    decreases k,
{
    reveal(pow);
    lemma_pow_positive(g_num, k);
    if k > 0 {
        let j = (k - 1) as nat;
        lemma_amplitudes_positive(g_num, g_den, j);
        assert(pow(g_num, k) == g_num * pow(g_num, j));
        assert(pow(g_den, k) == g_den * pow(g_den, j));
        assert(g_num * pow(g_num, j) <= g_den * pow(g_den, j)) by (nonlinear_arith)
            requires
                0 < g_num <= g_den,
                0 < pow(g_num, j) <= pow(g_den, j),
        ;
    }
}

/// Normalization keeps the quotient in range: dividing a sum that lies
/// within `bound` times a positive divisor by that divisor yields a value
/// within `[-bound, bound]`.
pub proof fn lemma_normalized_within_bound(total: int, divisor: int, bound: int)
    requires
        0 < divisor,
        -bound * divisor <= total <= bound * divisor,
    ensures
        -bound <= total / divisor <= bound,
{
    lemma_div_is_ordered(-bound * divisor, total, divisor);
    lemma_div_is_ordered(total, bound * divisor, divisor);
    lemma_div_multiples_vanish(bound, divisor);
    lemma_div_multiples_vanish(-bound, divisor);
    assert(bound * divisor == divisor * bound) by (nonlinear_arith);
    assert(-bound * divisor == divisor * -bound) by (nonlinear_arith);
}

} // verus!
