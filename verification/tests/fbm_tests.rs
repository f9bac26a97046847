use fbm_noise::fbm::{fbm_1d, fbm_2d, fbm_3d, fbm_4d, Coords, NoisePrimitive};
use fbm_noise::lanes::{div_lane, LaneVector};
use fbm_noise::noise::HashNoise;
use fbm_noise::quad::QuadLanes;

const RATIO: u64 = 0x9E37_79B9_7F4A_7C15;

// An independent rendering of the reference primitive's mixer, used to
// compute expected values by hand.
fn stir(v: u64) -> u64 {
    let m = v.wrapping_mul(RATIO);
    m ^ (m >> 29)
}

fn hash1(x: u64, seed: i64) -> u64 {
    stir(x ^ (seed as u64))
}

fn hash2(x: u64, y: u64, seed: i64) -> u64 {
    stir(hash1(x, seed) ^ y)
}

fn hash3(x: u64, y: u64, z: u64, seed: i64) -> u64 {
    stir(hash2(x, y, seed) ^ z)
}

fn quad(a: u64, b: u64, c: u64, d: u64) -> QuadLanes {
    QuadLanes { l0: a, l1: b, l2: c, l3: d }
}

#[test]
fn octave_zero_equals_octave_one_and_primitive() {
    let (x, lac, gain, seed) = (1234567u64, 3u64, 2u64, 42i64);
    let r0 = fbm_1d::<u64, HashNoise>(x, lac, gain, 0, seed);
    let r1 = fbm_1d::<u64, HashNoise>(x, lac, gain, 1, seed);
    let direct = <HashNoise as NoisePrimitive<u64>>::sample(&Coords::D1(x), seed);
    assert_eq!(r0, r1);
    assert_eq!(r1, direct);
    assert_eq!(direct, hash1(x, seed));
}

#[test]
fn octave_zero_equals_octave_one_negative_seed() {
    let (x, y, z, w) = (9u64, 8u64, 7u64, 6u64);
    let seed = -1i64;
    let r0 = fbm_4d::<u64, HashNoise>(x, y, z, w, 5, 4, 0, seed);
    let r1 = fbm_4d::<u64, HashNoise>(x, y, z, w, 5, 4, 1, seed);
    assert_eq!(r0, r1);
    // seed -1 folds to all-ones bits
    assert_eq!(hash1(3, -1), stir(3u64 ^ u64::MAX));
}

#[test]
fn repeated_calls_are_bit_identical() {
    let x = quad(1, u64::MAX, 123456789, 42);
    let y = quad(2, 99, 3, u64::MAX - 7);
    let lac = QuadLanes::splat(3);
    let gain = QuadLanes::splat(11);
    let a = fbm_2d::<QuadLanes, HashNoise>(x, y, lac, gain, 9, -77);
    let b = fbm_2d::<QuadLanes, HashNoise>(x, y, lac, gain, 9, -77);
    assert_eq!(a, b);
}

#[test]
fn single_lane_three_octave_weighted_form() {
    // One axis, one lane: lacunarity 2, gain 3, three octaves, seed 42.
    // Coordinates double each octave; every contribution past the first is
    // weighted by the current amplitude; the divisor is the amplitude sum.
    let (x, lac, gain, seed) = (10u64, 2u64, 3u64, 42i64);
    let n0 = hash1(10, seed);
    let n1 = hash1(20, seed);
    let n2 = hash1(40, seed);
    let accum = n0.wrapping_add(n1.wrapping_mul(3)).wrapping_add(n2.wrapping_mul(9));
    let scale = 1u64 + 3 + 9;
    let expected = accum / scale;
    assert_eq!(fbm_1d::<u64, HashNoise>(x, lac, gain, 3, seed), expected);
}

#[test]
fn frequency_progression_two_octaves() {
    // With two octaves the second sample must be taken at x * lacunarity.
    let (x, lac, gain, seed) = (71u64, 5u64, 7u64, 9i64);
    let expected = hash1(71, seed).wrapping_add(hash1(355, seed).wrapping_mul(7)) / 8;
    assert_eq!(fbm_1d::<u64, HashNoise>(x, lac, gain, 2, seed), expected);
}

#[test]
fn frequency_progression_multi_axis() {
    // Both axes are scaled by the same lacunarity each octave.
    let (x, y, lac, gain, seed) = (3u64, 4u64, 10u64, 2u64, 0i64);
    let expected = hash2(3, 4, seed).wrapping_add(hash2(30, 40, seed).wrapping_mul(2)) / 3;
    assert_eq!(fbm_2d::<u64, HashNoise>(x, y, lac, gain, 2, seed), expected);
}

#[test]
fn permuting_lanes_permutes_outputs() {
    let x = quad(11, 22, 33, 44);
    let y = quad(5, 6, 7, 8);
    let lac = QuadLanes::splat(2);
    let gain = QuadLanes::splat(3);
    let r = fbm_2d::<QuadLanes, HashNoise>(x, y, lac, gain, 4, 1000);
    // Swap lanes 0/1 and 2/3 of every input: outputs swap identically.
    let xp = quad(22, 11, 44, 33);
    let yp = quad(6, 5, 8, 7);
    let rp = fbm_2d::<QuadLanes, HashNoise>(xp, yp, lac, gain, 4, 1000);
    assert_eq!(rp.l0, r.l1);
    assert_eq!(rp.l1, r.l0);
    assert_eq!(rp.l2, r.l3);
    assert_eq!(rp.l3, r.l2);
}

#[test]
fn quad_lanes_match_scalar_evaluation() {
    let x = quad(100, 200, 300, u64::MAX);
    let y = quad(1, 2, 3, 4);
    let z = quad(50, 60, 70, 80);
    let lac = quad(2, 3, 4, 5);
    let gain = quad(9, 8, 7, 6);
    let r = fbm_3d::<QuadLanes, HashNoise>(x, y, z, lac, gain, 5, -3);
    let lanes = [
        (x.l0, y.l0, z.l0, lac.l0, gain.l0),
        (x.l1, y.l1, z.l1, lac.l1, gain.l1),
        (x.l2, y.l2, z.l2, lac.l2, gain.l2),
        (x.l3, y.l3, z.l3, lac.l3, gain.l3),
    ];
    let scalar: Vec<u64> = lanes
        .iter()
        .map(|&(xi, yi, zi, li, gi)| fbm_3d::<u64, HashNoise>(xi, yi, zi, li, gi, 5, -3))
        .collect();
    assert_eq!(r.l0, scalar[0]);
    assert_eq!(r.l1, scalar[1]);
    assert_eq!(r.l2, scalar[2]);
    assert_eq!(r.l3, scalar[3]);
}

#[test]
fn wrapped_zero_divisor_yields_zero() {
    // gain == 2^64 - 1 makes the amplitude sum wrap to zero after two
    // octaves; total division then yields zero instead of trapping.
    let r = fbm_1d::<u64, HashNoise>(123, 2, u64::MAX, 2, 5);
    assert_eq!(r, 0);
}

#[test]
fn division_helper_is_total() {
    assert_eq!(div_lane(10, 0), 0);
    assert_eq!(div_lane(10, 3), 3);
    assert_eq!(div_lane(u64::MAX, 1), u64::MAX);
}

#[test]
fn splat_fills_all_lanes() {
    let s = QuadLanes::splat(17);
    assert_eq!(s, quad(17, 17, 17, 17));
}

#[test]
fn four_axis_three_octaves_exact() {
    let seed = 2i64;
    let n0 = stir(hash3(1, 2, 3, seed) ^ 4);
    let n1 = stir(hash3(2, 4, 6, seed) ^ 8);
    let n2 = stir(hash3(4, 8, 12, seed) ^ 16);
    let accum = n0.wrapping_add(n1.wrapping_mul(5)).wrapping_add(n2.wrapping_mul(25));
    let expected = accum / (1 + 5 + 25);
    assert_eq!(fbm_4d::<u64, HashNoise>(1, 2, 3, 4, 2, 5, 3, seed), expected);
}

// A two-lane floating-point backend, usable here (and in ordinary callers)
// though not inside the verified core: it exercises the accumulator on the
// arithmetic the SIMD backends use.
#[derive(Clone, Copy, PartialEq, Debug)]
struct FloatPair(f64, f64);

impl LaneVector for FloatPair {
    // The spec/proof members exist only for verification; verified code is
    // generic over them and erased code never calls them, so stubs suffice
    // in this unverified backend.
    fn spec_lane_mul(a: Self, _b: Self) -> Self {
        a
    }

    fn spec_lane_add(a: Self, _b: Self) -> Self {
        a
    }

    fn spec_lane_div(a: Self, _b: Self) -> Self {
        a
    }

    fn spec_lane_one() -> Self {
        FloatPair(1.0, 1.0)
    }

    fn lemma_lane_div_one(_a: Self) {}

    fn lane_mul(&self, other: &Self) -> FloatPair {
        FloatPair(self.0 * other.0, self.1 * other.1)
    }

    fn lane_add(&self, other: &Self) -> FloatPair {
        FloatPair(self.0 + other.0, self.1 + other.1)
    }

    fn lane_div(&self, other: &Self) -> FloatPair {
        FloatPair(self.0 / other.0, self.1 / other.1)
    }

    fn lane_one() -> FloatPair {
        FloatPair(1.0, 1.0)
    }
}

// A primitive bounded in [-1, 1] for all finite inputs.
struct BoundedWave;

impl NoisePrimitive<FloatPair> for BoundedWave {
    // Ghost member, never called at runtime.
    fn spec_sample(_c: Coords<FloatPair>, _seed: i64) -> FloatPair {
        FloatPair(0.0, 0.0)
    }

    fn sample(c: &Coords<FloatPair>, seed: i64) -> FloatPair {
        let (a, b) = match c {
            Coords::D1(x) => (x.0, x.1),
            Coords::D2(x, y) => (x.0 + y.0, x.1 + y.1),
            Coords::D3(x, y, z) => (x.0 + y.0 + z.0, x.1 + y.1 + z.1),
            Coords::D4(x, y, z, w) => (x.0 + y.0 + z.0 + w.0, x.1 + y.1 + z.1 + w.1),
        };
        let s = seed as f64;
        FloatPair((a + s).sin(), (b + s).sin())
    }
}

#[test]
fn float_backend_result_stays_bounded() {
    // gain in (0, 1] and a primitive within [-1, 1]: the normalized result
    // stays within [-1, 1] whatever the octave count.
    let x = FloatPair(0.1, -7.3);
    let y = FloatPair(2.5, 0.01);
    let lac = FloatPair(2.0, 2.0);
    let gain = FloatPair(0.5, 0.5);
    for octaves in [0u8, 1, 2, 3, 8, 32] {
        let r = fbm_2d::<FloatPair, BoundedWave>(x, y, lac, gain, octaves, 42);
        assert!(-1.0 <= r.0 && r.0 <= 1.0);
        assert!(-1.0 <= r.1 && r.1 <= 1.0);
    }
}

#[test]
fn float_backend_octave_zero_one_bit_identical() {
    let x = FloatPair(0.1, 123.456);
    let lac = FloatPair(2.0, 2.0);
    let gain = FloatPair(0.5, 0.5);
    let r0 = fbm_1d::<FloatPair, BoundedWave>(x, lac, gain, 0, 42);
    let r1 = fbm_1d::<FloatPair, BoundedWave>(x, lac, gain, 1, 42);
    let direct = BoundedWave::sample(&Coords::D1(x), 42);
    assert_eq!(r0.0.to_bits(), r1.0.to_bits());
    assert_eq!(r0.1.to_bits(), r1.1.to_bits());
    assert_eq!(r1.0.to_bits(), direct.0.to_bits());
    assert_eq!(r1.1.to_bits(), direct.1.to_bits());
}

#[test]
fn float_single_lane_weighted_scenario() {
    // lacunarity 2, gain 0.5, three octaves, seed 42, x = 0.1: the result
    // is (n0 + 0.5 * n1 + 0.25 * n2) / 1.75 with n_k sampled at x * 2^k.
    let x = FloatPair(0.1, 0.1);
    let lac = FloatPair(2.0, 2.0);
    let gain = FloatPair(0.5, 0.5);
    let r = fbm_1d::<FloatPair, BoundedWave>(x, lac, gain, 3, 42);
    let n0 = (0.1f64 + 42.0).sin();
    let n1 = (0.1f64 * 2.0 + 42.0).sin();
    let n2 = (0.1f64 * 2.0 * 2.0 + 42.0).sin();
    let expected = (n0 + n1 * 0.5 + n2 * 0.25) / (1.0 + 0.5 + 0.25);
    assert_eq!(r.0.to_bits(), expected.to_bits());
}
