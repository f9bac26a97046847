//! The fractal accumulator: fractal Brownian motion (FBM) synthesized by
//! summing octaves of a base noise primitive. Octave `k` samples the
//! primitive at the coordinates scaled `k` times by the lacunarity, weighs
//! the sample by the amplitude `gain` applied `k` times to the unit, and
//! the final sum is normalized by the sum of the amplitudes actually used.
//!
//! The algorithm is written once, generic over the coordinate
//! dimensionality (one to four axes, [`Coords`]), the lane-vector
//! arithmetic ([`LaneVector`]) and the noise primitive
//! ([`NoisePrimitive`]); `fbm_1d` through `fbm_4d` are thin per-dimension
//! entry points.
//!
//! No parameter is validated: the intended domain is a lacunarity above
//! one and a gain in `(0, 1]`, but any values are accepted and the result
//! simply follows the backend's arithmetic. The contracts pin that result
//! exactly, whatever the parameters; the verified integer backends make
//! even a degenerate (zero) divisor total, and never panic.

use crate::lanes::LaneVector;
use vstd::prelude::*;

verus! {

/// Per-lane sample coordinates: one lane vector per axis, one to four axes.
/// Lane `i` of every axis together names one independent sample point.
pub enum Coords<V> {
    D1(V),
    D2(V, V),
    D3(V, V, V),
    D4(V, V, V, V),
}

/// The base noise primitive consumed by the accumulator: a pure,
/// deterministic, seeded function from a coordinate vector to a lane
/// vector. The executable `sample` is pinned to the spec-level
/// `spec_sample`, which is what makes every accumulated result a
/// mathematical function of its inputs.
pub trait NoisePrimitive<V: LaneVector> {
    /// What the primitive returns, as a function of coordinates and seed
    /// alone.
    spec fn spec_sample(c: Coords<V>, seed: i64) -> V;

    fn sample(c: &Coords<V>, seed: i64) -> (r: V)
        ensures
            r == Self::spec_sample(*c, seed),
    ;
}

/// Every axis multiplied element-wise by the lacunarity: one frequency
/// step between octaves.
pub open spec fn spec_scale_coords<V: LaneVector>(c: Coords<V>, lacunarity: V) -> Coords<V> {
    match c {
        Coords::D1(x) => Coords::D1(V::spec_lane_mul(x, lacunarity)),
        Coords::D2(x, y) => Coords::D2(
            V::spec_lane_mul(x, lacunarity),
            V::spec_lane_mul(y, lacunarity),
        ),
        Coords::D3(x, y, z) => Coords::D3(
            V::spec_lane_mul(x, lacunarity),
            V::spec_lane_mul(y, lacunarity),
            V::spec_lane_mul(z, lacunarity),
        ),
        Coords::D4(x, y, z, w) => Coords::D4(
            V::spec_lane_mul(x, lacunarity),
            V::spec_lane_mul(y, lacunarity),
            V::spec_lane_mul(z, lacunarity),
            V::spec_lane_mul(w, lacunarity),
        ),
    }
}

fn scale_coords<V: LaneVector>(c: Coords<V>, lacunarity: &V) -> (r: Coords<V>)
    ensures
        r == spec_scale_coords(c, *lacunarity),
{
    match c {
        Coords::D1(x) => Coords::D1(x.lane_mul(lacunarity)),
        Coords::D2(x, y) => Coords::D2(x.lane_mul(lacunarity), y.lane_mul(lacunarity)),
        Coords::D3(x, y, z) => Coords::D3(
            x.lane_mul(lacunarity),
            y.lane_mul(lacunarity),
            z.lane_mul(lacunarity),
        ),
        Coords::D4(x, y, z, w) => Coords::D4(
            x.lane_mul(lacunarity),
            y.lane_mul(lacunarity),
            z.lane_mul(lacunarity),
            w.lane_mul(lacunarity),
        ),
    }
}

/// The coordinates fed to the primitive at octave `k`: the original
/// coordinates with every axis scaled by the lacunarity `k` times over.
pub open spec fn spec_coords_at<V: LaneVector>(c: Coords<V>, lacunarity: V, k: nat) -> Coords<V>
    decreases k,
{
    if k == 0 {
        c
    } else {
        spec_scale_coords(spec_coords_at(c, lacunarity, (k - 1) as nat), lacunarity)
    }
}

/// The amplitude weighing octave `k`: the broadcast unit multiplied by the
/// gain `k` times over. Octave zero always carries the unit amplitude.
pub open spec fn spec_amp_at<V: LaneVector>(gain: V, k: nat) -> V
    decreases k,
{
    if k == 0 {
        V::spec_lane_one()
    } else {
        V::spec_lane_mul(spec_amp_at(gain, (k - 1) as nat), gain)
    }
}

/// The normalization divisor after `n` octaves (`n >= 1`): the sum of the
/// amplitudes of all octaves actually summed, starting from the unit for
/// octave zero.
pub open spec fn spec_scale_sum<V: LaneVector>(gain: V, n: nat) -> V
    decreases n,
{
    if n <= 1 {
        V::spec_lane_one()
    } else {
        V::spec_lane_add(spec_scale_sum(gain, (n - 1) as nat), spec_amp_at(gain, (n - 1) as nat))
    }
}

/// The raw octave sum after `n` octaves (`n >= 1`): octave zero enters
/// unweighted (its amplitude is the unit), and each later octave `k` adds
/// the primitive sampled at that octave's coordinates, multiplied by that
/// octave's amplitude.
///
/// Every dimensionality weighs alike. One-axis formulations that sum the
/// later contributions unweighted exist in the wild; the amplitude-weighted
/// form is the canonical fractal-Brownian-motion definition and is the one
/// adopted here for all axis counts.
pub open spec fn spec_accum<V: LaneVector, P: NoisePrimitive<V>>(
    c: Coords<V>,
    lacunarity: V,
    gain: V,
    seed: i64,
    n: nat,
) -> V
    decreases n,
{
    if n <= 1 {
        P::spec_sample(c, seed)
    } else {
        V::spec_lane_add(
            spec_accum::<V, P>(c, lacunarity, gain, seed, (n - 1) as nat),
            V::spec_lane_mul(
                P::spec_sample(spec_coords_at(c, lacunarity, (n - 1) as nat), seed),
                spec_amp_at(gain, (n - 1) as nat),
            ),
        )
    }
}

/// How many octaves are actually summed: a requested count of zero and of
/// one both evaluate the primitive exactly once.
pub open spec fn octave_count(octaves: u8) -> nat {
    if octaves <= 1 {
        1
    } else {
        octaves as nat
    }
}

/// The fractal accumulation in full: the octave sum divided element-wise
/// by the accumulated amplitude sum.
pub open spec fn fbm_spec<V: LaneVector, P: NoisePrimitive<V>>(
    c: Coords<V>,
    lacunarity: V,
    gain: V,
    octaves: u8,
    seed: i64,
) -> V {
    V::spec_lane_div(
        spec_accum::<V, P>(c, lacunarity, gain, seed, octave_count(octaves)),
        spec_scale_sum::<V>(gain, octave_count(octaves)),
    )
}

/// The one accumulation loop shared by all four dimensionalities.
fn fbm_core<V: LaneVector, P: NoisePrimitive<V>>(
    c: Coords<V>,
    lacunarity: V,
    gain: V,
    octaves: u8,
    seed: i64,
) -> (r: V)
    ensures
        r == fbm_spec::<V, P>(c, lacunarity, gain, octaves, seed),
{
    let ghost c0 = c;
    let mut cur = c;
    let mut amp = V::lane_one();
    let mut scale = V::lane_one();
    let mut result = P::sample(&cur, seed);
    let mut k: u8 = 1;
    while k < octaves
        invariant
            1 <= k,
            octaves <= 1 ==> k == 1,
            1 < octaves ==> k <= octaves,
            cur == spec_coords_at(c0, lacunarity, (k - 1) as nat),
            amp == spec_amp_at::<V>(gain, (k - 1) as nat),
            scale == spec_scale_sum::<V>(gain, k as nat),
            result == spec_accum::<V, P>(c0, lacunarity, gain, seed, k as nat),
        decreases octaves - k,
    {
        cur = scale_coords(cur, &lacunarity);
        amp = amp.lane_mul(&gain);
        scale = scale.lane_add(&amp);
        let sampled = P::sample(&cur, seed);
        result = result.lane_add(&sampled.lane_mul(&amp));
        k = k + 1;
    }
    result.lane_div(&scale)
}

/// Fractal Brownian motion over one coordinate axis. The result is pinned
/// to [`fbm_spec`], a function of the arguments alone, so identical inputs
/// always give the identical output vector.
pub fn fbm_1d<V: LaneVector, P: NoisePrimitive<V>>(
    x: V,
    lacunarity: V,
    gain: V,
    octaves: u8,
    seed: i64,
) -> (r: V)
    ensures
        r == fbm_spec::<V, P>(Coords::D1(x), lacunarity, gain, octaves, seed),
{
    fbm_core::<V, P>(Coords::D1(x), lacunarity, gain, octaves, seed)
}

/// Fractal Brownian motion over two coordinate axes.
pub fn fbm_2d<V: LaneVector, P: NoisePrimitive<V>>(
    x: V,
    y: V,
    lacunarity: V,
    gain: V,
    octaves: u8,
    seed: i64,
) -> (r: V)
    ensures
        r == fbm_spec::<V, P>(Coords::D2(x, y), lacunarity, gain, octaves, seed),
{
    fbm_core::<V, P>(Coords::D2(x, y), lacunarity, gain, octaves, seed)
}

/// Fractal Brownian motion over three coordinate axes.
pub fn fbm_3d<V: LaneVector, P: NoisePrimitive<V>>(
    x: V,
    y: V,
    z: V,
    lacunarity: V,
    gain: V,
    octaves: u8,
    seed: i64,
) -> (r: V)
    ensures
        r == fbm_spec::<V, P>(Coords::D3(x, y, z), lacunarity, gain, octaves, seed),
{
    fbm_core::<V, P>(Coords::D3(x, y, z), lacunarity, gain, octaves, seed)
}

/// Fractal Brownian motion over four coordinate axes.
pub fn fbm_4d<V: LaneVector, P: NoisePrimitive<V>>(
    x: V,
    y: V,
    z: V,
    w: V,
    lacunarity: V,
    gain: V,
    octaves: u8,
    seed: i64,
) -> (r: V)
    ensures
        r == fbm_spec::<V, P>(Coords::D4(x, y, z, w), lacunarity, gain, octaves, seed),
{
    fbm_core::<V, P>(Coords::D4(x, y, z, w), lacunarity, gain, octaves, seed)
}

/// Octave counts zero and one are indistinguishable: neither runs the
/// accumulation loop, both evaluate the primitive once at the original
/// coordinates and divide by the unit divisor, so both return exactly the
/// primitive's own value.
pub proof fn lemma_octave_zero_one_equivalence<V: LaneVector, P: NoisePrimitive<V>>(
    c: Coords<V>,
    lacunarity: V,
    gain: V,
    seed: i64,
)
    ensures
        fbm_spec::<V, P>(c, lacunarity, gain, 0, seed) == fbm_spec::<V, P>(
            c,
            lacunarity,
            gain,
            1,
            seed,
        ),
        fbm_spec::<V, P>(c, lacunarity, gain, 1, seed) == P::spec_sample(c, seed),
{
    V::lemma_lane_div_one(P::spec_sample(c, seed));
}

/// Determinism: the evaluators' contracts pin their results to
/// [`fbm_spec`], a function of the inputs alone, so any two results
/// obtained from identical inputs (seed included) are identical.
pub proof fn lemma_determinism<V: LaneVector, P: NoisePrimitive<V>>(
    c: Coords<V>,
    lacunarity: V,
    gain: V,
    octaves: u8,
    seed: i64,
    r1: V,
    r2: V,
)
    requires
        r1 == fbm_spec::<V, P>(c, lacunarity, gain, octaves, seed),
        r2 == fbm_spec::<V, P>(c, lacunarity, gain, octaves, seed),
    ensures
        r1 == r2,
{
}

/// Frequency progression: octave zero samples the original coordinates,
/// and the coordinates of octave `k + 1` are the coordinates of octave `k`
/// with every axis multiplied by the lacunarity once more.
pub proof fn lemma_frequency_progression<V: LaneVector>(c: Coords<V>, lacunarity: V, k: nat)
    ensures
        spec_coords_at(c, lacunarity, 0) == c,
        spec_coords_at(c, lacunarity, k + 1) == spec_scale_coords(
            spec_coords_at(c, lacunarity, k),
            lacunarity,
        ),
{
}

/// Amplitude progression: octave zero carries the unit amplitude, octave
/// `k + 1` carries octave `k`'s amplitude multiplied by the gain, and the
/// normalization divisor accumulates exactly the amplitudes of the octaves
/// summed so far.
pub proof fn lemma_amplitude_progression<V: LaneVector>(gain: V, k: nat)
    ensures
        spec_amp_at::<V>(gain, 0) == V::spec_lane_one(),
        spec_amp_at::<V>(gain, k + 1) == V::spec_lane_mul(spec_amp_at::<V>(gain, k), gain),
        spec_scale_sum::<V>(gain, 1) == V::spec_lane_one(),
        spec_scale_sum::<V>(gain, k + 2) == V::spec_lane_add(
            spec_scale_sum::<V>(gain, k + 1),
            spec_amp_at::<V>(gain, k + 1),
        ),
{
}

/// Each octave past the first adds exactly one term to the octave sum: the
/// primitive sampled at that octave's scaled coordinates, weighted by that
/// octave's amplitude.
pub proof fn lemma_octave_term<V: LaneVector, P: NoisePrimitive<V>>(
    c: Coords<V>,
    lacunarity: V,
    gain: V,
    seed: i64,
    n: nat,
)
    requires
        1 <= n,
    ensures
        spec_accum::<V, P>(c, lacunarity, gain, seed, n + 1) == V::spec_lane_add(
            spec_accum::<V, P>(c, lacunarity, gain, seed, n),
            V::spec_lane_mul(
                P::spec_sample(spec_coords_at(c, lacunarity, n), seed),
                spec_amp_at(gain, n),
            ),
        ),
{
}

} // verus!
