//! Entity transforms: position, orientation and scale.
//!
//! Orientation is tracked as a yaw about the vertical axis in quarter-turn
//! increments. A quarter turn permutes and negates horizontal coordinates
//! exactly, so rotating a vector never changes its length — the property the
//! camera tracker's zoom guarantee rests on.

use vstd::prelude::*;

use crate::math::Vec3;

verus! {

/// Yaw about the vertical axis, in quarter-turn increments.
#[derive(Clone, Copy, Debug, PartialEq, Eq, Structural)]
pub enum Yaw {
    Deg0,
    Deg90,
    Deg180,
    Deg270,
}

impl Yaw {
    /// The yaw one quarter turn counter-clockwise from `self`.
    pub open spec fn spec_turned_ccw(self) -> Yaw {
        match self {
            Yaw::Deg0 => Yaw::Deg90,
            Yaw::Deg90 => Yaw::Deg180,
            Yaw::Deg180 => Yaw::Deg270,
            Yaw::Deg270 => Yaw::Deg0,
        }
    }

    pub fn turned_ccw(self) -> (r: Yaw)
        ensures
            r == self.spec_turned_ccw(),
    {
        match self {
            Yaw::Deg0 => Yaw::Deg90,
            Yaw::Deg90 => Yaw::Deg180,
            Yaw::Deg180 => Yaw::Deg270,
            Yaw::Deg270 => Yaw::Deg0,
        }
    }

    /// `v` rotated about the vertical axis by this yaw.
    ///
    /// A counter-clockwise quarter turn maps `(x, z)` to `(z, -x)`; the
    /// vertical coordinate is untouched.
    pub open spec fn spec_rotate(self, v: Vec3) -> Vec3 {
        match self {
            Yaw::Deg0 => v,
            Yaw::Deg90 => Vec3 { x: v.z, y: v.y, z: (-(v.x as int)) as i64 },
            Yaw::Deg180 => Vec3 { x: (-(v.x as int)) as i64, y: v.y, z: (-(v.z as int)) as i64 },
            Yaw::Deg270 => Vec3 { x: (-(v.z as int)) as i64, y: v.y, z: v.x },
        }
    }

    /// Rotate `v` about the vertical axis by this yaw.
    pub fn rotate(self, v: &Vec3) -> (r: Vec3)
        requires
            v.in_bounds(),
        ensures
            r == self.spec_rotate(*v),
            r.in_bounds(),
    {
        match self {
            Yaw::Deg0 => *v,
            Yaw::Deg90 => Vec3 { x: v.z, y: v.y, z: -v.x },
            Yaw::Deg180 => Vec3 { x: -v.x, y: v.y, z: -v.z },
            Yaw::Deg270 => Vec3 { x: -v.z, y: v.y, z: v.x },
        }
    }
}

/// Position, orientation and scale of one entity.
#[derive(Clone, Copy, Debug, PartialEq, Eq, Structural)]
pub struct Transform {
    pub position: Vec3,
    pub rotation: Yaw,
    pub scale: Vec3,
}

impl Transform {
    /// Position within world bounds, scale components non-negative.
    pub open spec fn valid(self) -> bool {
        &&& self.position.in_bounds()
        &&& self.scale.x >= 0
        &&& self.scale.y >= 0
        &&& self.scale.z >= 0
    }

    /// A transform at `position` with no rotation and unit scale.
    pub fn at_position(position: Vec3) -> (r: Transform)
        ensures
            r.position == position,
            r.rotation == Yaw::Deg0,
            r.scale == (Vec3 { x: crate::math::SCALE, y: crate::math::SCALE, z: crate::math::SCALE }),
            position.in_bounds() ==> r.valid(),
    {
        Transform {
            position,
            rotation: Yaw::Deg0,
            scale: Vec3 { x: crate::math::SCALE, y: crate::math::SCALE, z: crate::math::SCALE },
        }
    }
}

} // verus!
