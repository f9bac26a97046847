//! The abstract lane-vector arithmetic that the fractal accumulator is
//! generic over, plus the simplest concrete backend: a single `u64` lane
//! with wrapping arithmetic.

use vstd::prelude::*;

verus! {

/// Scalar division made total: a divisor of zero yields zero. This is the
/// division every integer lane backend uses, so that the accumulator's
/// final normalization step never panics whatever the divisor holds.
pub open spec fn div_or_zero(a: u64, b: u64) -> u64 {
    if b == 0 {
        0
    } else {
        (a as int / b as int) as u64
    }
}

/// Executable counterpart of [`div_or_zero`].
pub fn div_lane(a: u64, b: u64) -> (r: u64)
    ensures
        r == div_or_zero(a, b),
{
    if b == 0 {
        0
    } else {
        a / b
    }
}

/// A fixed-width vector of lanes offering the element-wise arithmetic the
/// fractal accumulator needs: multiply, add, divide and a broadcast unit.
///
/// Every executable method is pinned to a spec-level counterpart, so any
/// value computed from these operations is a mathematical function of the
/// inputs alone: evaluating twice on the same arguments gives the same
/// vector, bit for bit.
pub trait LaneVector: Sized {
    /// Element-wise product.
    spec fn spec_lane_mul(a: Self, b: Self) -> Self;

    /// Element-wise sum.
    spec fn spec_lane_add(a: Self, b: Self) -> Self;

    /// Element-wise quotient.
    spec fn spec_lane_div(a: Self, b: Self) -> Self;

    /// The broadcast unit: every lane holds the multiplicative identity.
    spec fn spec_lane_one() -> Self;

    fn lane_mul(&self, other: &Self) -> (r: Self)
        ensures
            r == Self::spec_lane_mul(*self, *other),
    ;

    fn lane_add(&self, other: &Self) -> (r: Self)
        ensures
            r == Self::spec_lane_add(*self, *other),
    ;

    fn lane_div(&self, other: &Self) -> (r: Self)
        ensures
            r == Self::spec_lane_div(*self, *other),
    ;

    fn lane_one() -> (r: Self)
        ensures
            r == Self::spec_lane_one(),
    ;

    /// Dividing by the broadcast unit changes nothing. The accumulator
    /// leans on this law when the octave count is zero or one: the divisor
    /// is then still the unit, and the primitive's value passes through
    /// unchanged.
    proof fn lemma_lane_div_one(a: Self)
        ensures
            Self::spec_lane_div(a, Self::spec_lane_one()) == a,
    ;
}

/// A single 64-bit lane with wrapping arithmetic: the narrowest backend,
/// used to state per-lane facts about wider vectors and to evaluate single
/// sample points exactly.
impl LaneVector for u64 {
    open spec fn spec_lane_mul(a: u64, b: u64) -> u64 {
        a.wrapping_mul(b)
    }

    open spec fn spec_lane_add(a: u64, b: u64) -> u64 {
        a.wrapping_add(b)
    }

    open spec fn spec_lane_div(a: u64, b: u64) -> u64 {
        div_or_zero(a, b)
    }

    open spec fn spec_lane_one() -> u64 {
        1
    }

    fn lane_mul(&self, other: &Self) -> (r: u64) {
        self.wrapping_mul(*other)
    }

    fn lane_add(&self, other: &Self) -> (r: u64) {
        self.wrapping_add(*other)
    }

    fn lane_div(&self, other: &Self) -> (r: u64) {
        div_lane(*self, *other)
    }

    fn lane_one() -> (r: u64) {
        1
    }

    proof fn lemma_lane_div_one(a: u64) {
    }
}

} // verus!
