//! A reference noise primitive: a seeded 64-bit mixing function, applied
//! lane-wise. It stands where a production build plugs in a smooth
//! simplex kernel — the accumulator consumes any [`NoisePrimitive`] — and
//! being built lane-wise from a scalar mixer, it is the instance on which
//! the lane-independence law is stated and proved.

use crate::fbm::{fbm_spec, spec_accum, spec_amp_at, spec_coords_at, spec_scale_coords,
    spec_scale_sum, Coords, NoisePrimitive};
use crate::lanes::LaneVector;
use crate::quad::QuadLanes;
use vstd::prelude::*;

verus! {

/// One stirring round: multiply by an odd 64-bit constant and fold the
/// high bits back down with a shift-xor.
pub open spec fn spec_stir(v: u64) -> u64 {
    (v.wrapping_mul(0x9E37_79B9_7F4A_7C15) ^ (v.wrapping_mul(0x9E37_79B9_7F4A_7C15) >> 29))
}

fn stir(v: u64) -> (r: u64)
    ensures
        r == spec_stir(v),
{
    let m = v.wrapping_mul(0x9E37_79B9_7F4A_7C15);
    m ^ (m >> 29)
}

/// The seed's 64 bits as an unsigned word (two's complement).
pub open spec fn spec_seed_bits(seed: i64) -> u64 {
    if seed >= 0 {
        seed as u64
    } else {
        (seed + u64::MAX + 1) as u64
    }
}

fn seed_bits(seed: i64) -> (r: u64)
    ensures
        r == spec_seed_bits(seed),
{
    if seed >= 0 {
        seed as u64
    } else {
        let mag = -(seed + 1);
        u64::MAX - (mag as u64)
    }
}

/// The scalar primitive over one axis: the seed folded into the
/// coordinate, then stirred.
pub open spec fn spec_sample_1(x: u64, seed: i64) -> u64 {
    spec_stir(x ^ spec_seed_bits(seed))
}

/// Two axes: the one-axis hash with the second axis folded in and stirred
/// again.
pub open spec fn spec_sample_2(x: u64, y: u64, seed: i64) -> u64 {
    spec_stir(spec_sample_1(x, seed) ^ y)
}

/// Three axes.
pub open spec fn spec_sample_3(x: u64, y: u64, z: u64, seed: i64) -> u64 {
    spec_stir(spec_sample_2(x, y, seed) ^ z)
}

/// Four axes.
pub open spec fn spec_sample_4(x: u64, y: u64, z: u64, w: u64, seed: i64) -> u64 {
    spec_stir(spec_sample_3(x, y, z, seed) ^ w)
}

fn sample_1(x: u64, seed: i64) -> (r: u64)
    ensures
        r == spec_sample_1(x, seed),
{
    stir(x ^ seed_bits(seed))
}

fn sample_2(x: u64, y: u64, seed: i64) -> (r: u64)
    ensures
        r == spec_sample_2(x, y, seed),
{
    stir(sample_1(x, seed) ^ y)
}

fn sample_3(x: u64, y: u64, z: u64, seed: i64) -> (r: u64)
    ensures
        r == spec_sample_3(x, y, z, seed),
{
    stir(sample_2(x, y, seed) ^ z)
}

fn sample_4(x: u64, y: u64, z: u64, w: u64, seed: i64) -> (r: u64)
    ensures
        r == spec_sample_4(x, y, z, w, seed),
{
    stir(sample_3(x, y, z, seed) ^ w)
}

/// The reference primitive. Pure and deterministic by construction: both
/// impls' samples are pinned to the scalar spec hashes above.
pub struct HashNoise;

impl NoisePrimitive<u64> for HashNoise {
    open spec fn spec_sample(c: Coords<u64>, seed: i64) -> u64 {
        match c {
            Coords::D1(x) => spec_sample_1(x, seed),
            Coords::D2(x, y) => spec_sample_2(x, y, seed),
            Coords::D3(x, y, z) => spec_sample_3(x, y, z, seed),
            Coords::D4(x, y, z, w) => spec_sample_4(x, y, z, w, seed),
        }
    }

    fn sample(c: &Coords<u64>, seed: i64) -> (r: u64) {
        match c {
            Coords::D1(x) => sample_1(*x, seed),
            Coords::D2(x, y) => sample_2(*x, *y, seed),
            Coords::D3(x, y, z) => sample_3(*x, *y, *z, seed),
            Coords::D4(x, y, z, w) => sample_4(*x, *y, *z, *w, seed),
        }
    }
}

/// Lane `i` of a four-lane coordinate tuple, as a single-lane coordinate
/// tuple.
pub open spec fn lane_coords(c: Coords<QuadLanes>, i: int) -> Coords<u64> {
    match c {
        Coords::D1(x) => Coords::D1(x.spec_lane(i)),
        Coords::D2(x, y) => Coords::D2(x.spec_lane(i), y.spec_lane(i)),
        Coords::D3(x, y, z) => Coords::D3(x.spec_lane(i), y.spec_lane(i), z.spec_lane(i)),
        Coords::D4(x, y, z, w) => Coords::D4(
            x.spec_lane(i),
            y.spec_lane(i),
            z.spec_lane(i),
            w.spec_lane(i),
        ),
    }
}

impl NoisePrimitive<QuadLanes> for HashNoise {
    open spec fn spec_sample(c: Coords<QuadLanes>, seed: i64) -> QuadLanes {
        QuadLanes {
            l0: <HashNoise as NoisePrimitive<u64>>::spec_sample(lane_coords(c, 0), seed),
            l1: <HashNoise as NoisePrimitive<u64>>::spec_sample(lane_coords(c, 1), seed),
            l2: <HashNoise as NoisePrimitive<u64>>::spec_sample(lane_coords(c, 2), seed),
            l3: <HashNoise as NoisePrimitive<u64>>::spec_sample(lane_coords(c, 3), seed),
        }
    }

    fn sample(c: &Coords<QuadLanes>, seed: i64) -> (r: QuadLanes) {
        match c {
            Coords::D1(x) => QuadLanes {
                l0: sample_1(x.l0, seed),
                l1: sample_1(x.l1, seed),
                l2: sample_1(x.l2, seed),
                l3: sample_1(x.l3, seed),
            },
            Coords::D2(x, y) => QuadLanes {
                l0: sample_2(x.l0, y.l0, seed),
                l1: sample_2(x.l1, y.l1, seed),
                l2: sample_2(x.l2, y.l2, seed),
                l3: sample_2(x.l3, y.l3, seed),
            },
            Coords::D3(x, y, z) => QuadLanes {
                l0: sample_3(x.l0, y.l0, z.l0, seed),
                l1: sample_3(x.l1, y.l1, z.l1, seed),
                l2: sample_3(x.l2, y.l2, z.l2, seed),
                l3: sample_3(x.l3, y.l3, z.l3, seed),
            },
            Coords::D4(x, y, z, w) => QuadLanes {
                l0: sample_4(x.l0, y.l0, z.l0, w.l0, seed),
                l1: sample_4(x.l1, y.l1, z.l1, w.l1, seed),
                l2: sample_4(x.l2, y.l2, z.l2, w.l2, seed),
                l3: sample_4(x.l3, y.l3, z.l3, w.l3, seed),
            },
        }
    }
}

proof fn lemma_scale_coords_lanewise(c: Coords<QuadLanes>, lacunarity: QuadLanes, i: int)
    requires
        0 <= i < 4,
    ensures
        lane_coords(spec_scale_coords(c, lacunarity), i) == spec_scale_coords(
            lane_coords(c, i),
            lacunarity.spec_lane(i),
        ),
{
}

proof fn lemma_coords_at_lanewise(c: Coords<QuadLanes>, lacunarity: QuadLanes, k: nat, i: int)
    requires
        0 <= i < 4,
    ensures
        lane_coords(spec_coords_at(c, lacunarity, k), i) == spec_coords_at(
            lane_coords(c, i),
            lacunarity.spec_lane(i),
            k,
        ),
    decreases k,
{
    if k > 0 {
        lemma_coords_at_lanewise(c, lacunarity, (k - 1) as nat, i);
        lemma_scale_coords_lanewise(spec_coords_at(c, lacunarity, (k - 1) as nat), lacunarity, i);
    }
}

proof fn lemma_amp_at_lanewise(gain: QuadLanes, k: nat, i: int)
    requires
        0 <= i < 4,
    ensures
        spec_amp_at::<QuadLanes>(gain, k).spec_lane(i) == spec_amp_at::<u64>(
            gain.spec_lane(i),
            k,
        ),
    decreases k,
{
    if k > 0 {
        lemma_amp_at_lanewise(gain, (k - 1) as nat, i);
    }
}

proof fn lemma_scale_sum_lanewise(gain: QuadLanes, n: nat, i: int)
    requires
        0 <= i < 4,
    ensures
        spec_scale_sum::<QuadLanes>(gain, n).spec_lane(i) == spec_scale_sum::<u64>(
            gain.spec_lane(i),
            n,
        ),
    decreases n,
{
    if n > 1 {
        lemma_scale_sum_lanewise(gain, (n - 1) as nat, i);
        lemma_amp_at_lanewise(gain, (n - 1) as nat, i);
    }
}

proof fn lemma_sample_lanewise(c: Coords<QuadLanes>, seed: i64, i: int)
    requires
        0 <= i < 4,
    ensures
        <HashNoise as NoisePrimitive<QuadLanes>>::spec_sample(c, seed).spec_lane(i)
            == <HashNoise as NoisePrimitive<u64>>::spec_sample(lane_coords(c, i), seed),
{
}

proof fn lemma_accum_lanewise(
    c: Coords<QuadLanes>,
    lacunarity: QuadLanes,
    gain: QuadLanes,
    seed: i64,
    n: nat,
    i: int,
)
    requires
        0 <= i < 4,
    ensures
        spec_accum::<QuadLanes, HashNoise>(c, lacunarity, gain, seed, n).spec_lane(i)
            == spec_accum::<u64, HashNoise>(
            lane_coords(c, i),
            lacunarity.spec_lane(i),
            gain.spec_lane(i),
            seed,
            n,
        ),
    decreases n,
{
    if n <= 1 {
        lemma_sample_lanewise(c, seed, i);
    } else {
        lemma_accum_lanewise(c, lacunarity, gain, seed, (n - 1) as nat, i);
        lemma_coords_at_lanewise(c, lacunarity, (n - 1) as nat, i);
        lemma_amp_at_lanewise(gain, (n - 1) as nat, i);
        lemma_sample_lanewise(spec_coords_at(c, lacunarity, (n - 1) as nat), seed, i);
    }
}

/// Lane independence: lane `i` of the four-lane evaluation equals the
/// single-lane evaluation run on lane `i`'s coordinates and parameters
/// alone. No lane influences another, so permuting the lane values of the
/// inputs permutes the output lanes identically.
pub proof fn lemma_lane_independence(
    c: Coords<QuadLanes>,
    lacunarity: QuadLanes,
    gain: QuadLanes,
    octaves: u8,
    seed: i64,
    i: int,
)
    requires
        0 <= i < 4,
    ensures
        fbm_spec::<QuadLanes, HashNoise>(c, lacunarity, gain, octaves, seed).spec_lane(i)
            == fbm_spec::<u64, HashNoise>(
            lane_coords(c, i),
            lacunarity.spec_lane(i),
            gain.spec_lane(i),
            octaves,
            seed,
        ),
{
    let n = crate::fbm::octave_count(octaves);
    lemma_accum_lanewise(c, lacunarity, gain, seed, n, i);
    lemma_scale_sum_lanewise(gain, n, i);
}

} // verus!
