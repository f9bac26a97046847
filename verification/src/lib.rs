//! Fractal Brownian motion (FBM): multi-scale noise synthesized by summing
//! frequency-shifted, amplitude-decayed evaluations ("octaves") of a base
//! noise primitive, computed lane-parallel across independent sample points.
//!
//! The accumulation algorithm lives in [`fbm`], stated once over an abstract
//! lane-vector arithmetic capability ([`lanes::LaneVector`]) and an abstract
//! sampling capability ([`fbm::NoisePrimitive`]); concrete integer backends
//! live in [`lanes`] and [`quad`], a reference primitive in [`noise`], and
//! the arithmetic behind the bounded-normalization guarantee in [`bounds`].

pub mod bounds;
pub mod fbm;
pub mod lanes;
pub mod noise;
pub mod quad;
