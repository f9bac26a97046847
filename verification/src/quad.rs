//! A concrete four-lane backend: 64-bit words with wrapping element-wise
//! arithmetic. It plays the role a scalar fallback plays for a SIMD
//! library — a backend whose every operation is itself verified — and it
//! is the vehicle for the lane-independence law proved in [`crate::noise`].

use crate::lanes::{div_lane, div_or_zero, LaneVector};
use vstd::prelude::*;

verus! {

/// Four independent 64-bit lanes. Lane values never interact: every
/// operation acts element-wise.
#[derive(Clone, Copy, PartialEq, Eq, Debug)]
pub struct QuadLanes {
    pub l0: u64,
    pub l1: u64,
    pub l2: u64,
    pub l3: u64,
}

impl QuadLanes {
    /// Lane `i` of this vector, for `i` in `0 .. 4`.
    pub open spec fn spec_lane(self, i: int) -> u64 {
        if i == 0 {
            self.l0
        } else if i == 1 {
            self.l1
        } else if i == 2 {
            self.l2
        } else {
            self.l3
        }
    }

    /// Every lane set to the same value.
    pub fn splat(v: u64) -> (r: QuadLanes)
        ensures
            r == (QuadLanes { l0: v, l1: v, l2: v, l3: v }),
    {
        QuadLanes { l0: v, l1: v, l2: v, l3: v }
    }
}

impl LaneVector for QuadLanes {
    open spec fn spec_lane_mul(a: QuadLanes, b: QuadLanes) -> QuadLanes {
        QuadLanes {
            l0: a.l0.wrapping_mul(b.l0),
            l1: a.l1.wrapping_mul(b.l1),
            l2: a.l2.wrapping_mul(b.l2),
            l3: a.l3.wrapping_mul(b.l3),
        }
    }

    open spec fn spec_lane_add(a: QuadLanes, b: QuadLanes) -> QuadLanes {
        QuadLanes {
            l0: a.l0.wrapping_add(b.l0),
            l1: a.l1.wrapping_add(b.l1),
            l2: a.l2.wrapping_add(b.l2),
            l3: a.l3.wrapping_add(b.l3),
        }
    }

    open spec fn spec_lane_div(a: QuadLanes, b: QuadLanes) -> QuadLanes {
        QuadLanes {
            l0: div_or_zero(a.l0, b.l0),
            l1: div_or_zero(a.l1, b.l1),
            l2: div_or_zero(a.l2, b.l2),
            l3: div_or_zero(a.l3, b.l3),
        }
    }

    open spec fn spec_lane_one() -> QuadLanes {
        QuadLanes { l0: 1, l1: 1, l2: 1, l3: 1 }
    }

    fn lane_mul(&self, other: &Self) -> (r: QuadLanes) {
        QuadLanes {
            l0: self.l0.wrapping_mul(other.l0),
            l1: self.l1.wrapping_mul(other.l1),
            l2: self.l2.wrapping_mul(other.l2),
            l3: self.l3.wrapping_mul(other.l3),
        }
    }

    fn lane_add(&self, other: &Self) -> (r: QuadLanes) {
        QuadLanes {
            l0: self.l0.wrapping_add(other.l0),
            l1: self.l1.wrapping_add(other.l1),
            l2: self.l2.wrapping_add(other.l2),
            l3: self.l3.wrapping_add(other.l3),
        }
    }

    fn lane_div(&self, other: &Self) -> (r: QuadLanes) {
        QuadLanes {
            l0: div_lane(self.l0, other.l0),
            l1: div_lane(self.l1, other.l1),
            l2: div_lane(self.l2, other.l2),
            l3: div_lane(self.l3, other.l3),
        }
    }

    fn lane_one() -> (r: QuadLanes) {
        QuadLanes { l0: 1, l1: 1, l2: 1, l3: 1 }
    }

    proof fn lemma_lane_div_one(a: QuadLanes) {
    }
}

} // verus!
