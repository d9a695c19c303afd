//! A 2D vector in the robot's coordinate plane, in fixed-point coordinates.

use crate::fixed::{
    cos_fx, cos_spec, mag, mul_scaled, scaled_mul, sin_fx, sin_spec, COS_MAX, SIN_MAX,
};
use vstd::prelude::*;

verus! {

/// Largest magnitude a polar construction accepts, so that the scaled
/// products with sine and cosine stay representable.
pub const POLAR_MAGNITUDE_MAX: i64 = 100_000_000_000_000_000;

/// A point or displacement in the plane; both coordinates are fixed-point
/// values scaled by one million.
#[derive(Clone, Copy, PartialEq, Eq, Structural, Debug)]
pub struct Vec2 {
    pub x: i64,
    pub y: i64,
}

impl Vec2 {
    /// The vector with the given coordinates.
    pub fn new(x: i64, y: i64) -> (v: Vec2)
        ensures
            v == (Vec2 { x, y }),
    {
        Vec2 { x, y }
    }

    /// The vector of the given magnitude pointing along `angle` radians from
    /// the x-axis: `(magnitude * cos(angle), magnitude * sin(angle))` in
    /// fixed-point arithmetic.
    pub fn from_polar(magnitude: i64, angle: i64) -> (v: Vec2)
        requires
            mag(magnitude as int) <= POLAR_MAGNITUDE_MAX as int,
        ensures
            v.x as int == scaled_mul(magnitude as int, cos_spec(angle as int)),
            v.y as int == scaled_mul(magnitude as int, sin_spec(angle as int)),
    {
        let c = cos_fx(angle);
        let s = sin_fx(angle);
        proof {
            crate::fixed::lemma_mul_mag_bound(
                magnitude as int,
                c as int,
                POLAR_MAGNITUDE_MAX as int,
                COS_MAX as int,
            );
            crate::fixed::lemma_tdiv_bound(
                (magnitude as int) * (c as int),
                crate::fixed::SCALE as int,
                POLAR_MAGNITUDE_MAX as int * (COS_MAX as int),
                crate::fixed::SCALE as int,
            );
            crate::fixed::lemma_mul_mag_bound(
                magnitude as int,
                s as int,
                POLAR_MAGNITUDE_MAX as int,
                SIN_MAX as int,
            );
            crate::fixed::lemma_tdiv_bound(
                (magnitude as int) * (s as int),
                crate::fixed::SCALE as int,
                POLAR_MAGNITUDE_MAX as int * (SIN_MAX as int),
                crate::fixed::SCALE as int,
            );
        }
        Vec2 { x: mul_scaled(magnitude, c), y: mul_scaled(magnitude, s) }
    }
}

} // verus!
