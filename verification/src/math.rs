//! Fixed-point scalars and 3D vectors.
//!
//! One world unit is `SCALE` subunits; every coordinate, radius and half
//! extent in the crate is a count of subunits stored in an `i64`. Valid
//! world coordinates stay within `±POS_LIMIT`, which keeps all derived
//! arithmetic (differences, squared distances) comfortably inside the
//! machine integer ranges the executable code uses.

use vstd::prelude::*;

verus! {

/// Subunits per world unit.
pub const SCALE: i64 = 1000;

/// Milliseconds per second; frame durations are counted in milliseconds.
pub const MILLIS_PER_SECOND: i64 = 1000;

/// Largest magnitude a valid world coordinate may have, in subunits.
pub const POS_LIMIT: i64 = 1_000_000_000;

/// Largest magnitude a collider radius or half extent may have, in subunits.
pub const EXTENT_LIMIT: i64 = 1_000_000_000;

/// Largest speed a physics body may have, in subunits per second.
pub const SPEED_LIMIT: i64 = 1_000_000;

/// Largest frame duration the integrator accepts, in milliseconds.
pub const DT_LIMIT: i64 = 1_000_000;

/// One translation degree of freedom.
#[derive(Clone, Copy, Debug, PartialEq, Eq, Structural)]
pub enum Axis {
    X,
    Y,
    Z,
}

/// A 3D vector of fixed-point subunit coordinates.
#[derive(Clone, Copy, Debug, PartialEq, Eq, Structural)]
pub struct Vec3 {
    pub x: i64,
    pub y: i64,
    pub z: i64,
}

/// The square of a mathematical integer.
pub open spec fn sq(a: int) -> int {
    a * a
}

/// `v` clamped into the closed interval `[lo, hi]`.
pub open spec fn spec_clamp(v: int, lo: int, hi: int) -> int {
    if v < lo {
        lo
    } else if v > hi {
        hi
    } else {
        v
    }
}

/// Squared Euclidean distance between two points.
pub open spec fn dist_sq(a: Vec3, b: Vec3) -> int {
    sq(a.x - b.x) + sq(a.y - b.y) + sq(a.z - b.z)
}

impl Vec3 {
    /// Every coordinate has magnitude at most `m`.
    pub open spec fn within(self, m: int) -> bool {
        &&& -m <= self.x <= m
        &&& -m <= self.y <= m
        &&& -m <= self.z <= m
    }

    /// Every coordinate lies within the valid world range.
    pub open spec fn in_bounds(self) -> bool {
        self.within(POS_LIMIT as int)
    }

    /// The coordinate of `self` on `axis`.
    pub open spec fn spec_axis(self, axis: Axis) -> i64 {
        match axis {
            Axis::X => self.x,
            Axis::Y => self.y,
            Axis::Z => self.z,
        }
    }

    /// `self` with the coordinate on `axis` replaced by `v`.
    pub open spec fn spec_with_axis(self, axis: Axis, v: i64) -> Vec3 {
        match axis {
            Axis::X => Vec3 { x: v, ..self },
            Axis::Y => Vec3 { y: v, ..self },
            Axis::Z => Vec3 { z: v, ..self },
        }
    }

    pub fn zero() -> (r: Vec3)
        ensures
            r == (Vec3 { x: 0i64, y: 0i64, z: 0i64 }),
    {
        Vec3 { x: 0, y: 0, z: 0 }
    }

    /// Read the coordinate on `axis`.
    pub fn axis_value(&self, axis: Axis) -> (r: i64)
        ensures
            r == self.spec_axis(axis),
    {
        match axis {
            Axis::X => self.x,
            Axis::Y => self.y,
            Axis::Z => self.z,
        }
    }

    /// Replace the coordinate on `axis`.
    pub fn with_axis(&self, axis: Axis, v: i64) -> (r: Vec3)
        ensures
            r == self.spec_with_axis(axis, v),
    {
        match axis {
            Axis::X => Vec3 { x: v, ..*self },
            Axis::Y => Vec3 { y: v, ..*self },
            Axis::Z => Vec3 { z: v, ..*self },
        }
    }
}

/// Clamp `v` into `[lo, hi]`.
pub fn clamp_i64(v: i64, lo: i64, hi: i64) -> (r: i64)
    requires
        lo <= hi,
    ensures
        r == spec_clamp(v as int, lo as int, hi as int),
        lo <= r <= hi,
{
    if v < lo {
        lo
    } else if v > hi {
        hi
    } else {
        v
    }
}

/// Replacing an axis coordinate by its own value changes nothing.
pub proof fn lemma_with_axis_self(v: Vec3, axis: Axis)
    ensures
        v.spec_with_axis(axis, v.spec_axis(axis)) == v,
{
    match axis {
        Axis::X => {
            assert(v.spec_with_axis(axis, v.spec_axis(axis)) == v);
        },
        Axis::Y => {
            assert(v.spec_with_axis(axis, v.spec_axis(axis)) == v);
        },
        Axis::Z => {
            assert(v.spec_with_axis(axis, v.spec_axis(axis)) == v);
        },
    }
}

/// The product of two integers each bounded in magnitude by `b` is bounded
/// in magnitude by `b * b`.
pub proof fn lemma_mul_magnitude_bound(a: int, c: int, b: int)
    requires
        -b <= a <= b,
        -b <= c <= b,
        0 <= b,
    ensures
        -(b * b) <= a * c <= b * b,
{
    assert(-(b * b) <= a * c <= b * b) by (nonlinear_arith)
        requires
            -b <= a <= b,
            -b <= c <= b,
            0 <= b,
    ;
}

/// Squared Euclidean distance, computed exactly in 128-bit arithmetic.
///
/// The bound admits any point a few world ranges out, which covers every
/// intermediate point the collision code forms (positions shifted by
/// collider extents).
pub fn dist_sq_i128(a: &Vec3, b: &Vec3) -> (r: i128)
    requires
        a.within(4 * POS_LIMIT as int),
        b.within(4 * POS_LIMIT as int),
    ensures
        r == dist_sq(*a, *b),
        r >= 0,
{
    let dx: i128 = (a.x as i128) - (b.x as i128);
    let dy: i128 = (a.y as i128) - (b.y as i128);
    let dz: i128 = (a.z as i128) - (b.z as i128);
    proof {
        lemma_mul_magnitude_bound(dx as int, dx as int, 8 * POS_LIMIT as int);
        lemma_mul_magnitude_bound(dy as int, dy as int, 8 * POS_LIMIT as int);
        lemma_mul_magnitude_bound(dz as int, dz as int, 8 * POS_LIMIT as int);
        lemma_square_nonneg(dx as int);
        lemma_square_nonneg(dy as int);
        lemma_square_nonneg(dz as int);
    }
    dx * dx + dy * dy + dz * dz
}

/// A square is never negative.
pub proof fn lemma_square_nonneg(a: int)
    ensures
        sq(a) >= 0,
{
    assert(a * a >= 0) by (nonlinear_arith);
}

} // verus!
