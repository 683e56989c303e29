//! A Whitted-style recursive ray tracer whose numeric core is exact
//! fixed-point arithmetic: every scalar is an `i64` count of `UNIT`ths.
//! All geometry, shading and the recursive integrator are verified against
//! spec-level mirrors of the arithmetic, so every contract pins the result.

use vstd::prelude::*;

pub mod camera;
pub mod canvas;
pub mod fx;
pub mod laws;
pub mod light;
pub mod material;
pub mod matrix;
pub mod pattern;
pub mod ray;
pub mod shape;
pub mod tuple;
pub mod world;

verus! {

/// Number of fixed-point units that represent the real value 1.0.
pub const UNIT: i64 = 10_000_000;

/// Comparison and offset tolerance: the real value 1e-5, in units.
pub const EPSILON: i64 = 100;

/// Saturation bound of the fixed-point range: values are clamped into
/// [-LIMIT, LIMIT] so that every product of two in-range values fits i128.
pub const LIMIT: i64 = 1_099_511_627_776;

} // verus!
