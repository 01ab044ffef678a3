//! Camera tracker: a third-person rig that follows a target entity.
//!
//! The rig is a small state machine. `Free` holds only at startup, before a
//! camera target exists; once one is observed the rig is `Following`, and
//! while the orbit trigger is held it is `Orbiting`, during which look input
//! rotates the camera about the target instead of panning.
//!
//! The camera sits at `target + rotated(base_offset, yaw) * zoom`. The yaw
//! is tracked in quarter turns, which rotate fixed-point coordinates
//! exactly and so preserve the camera-to-target distance; `zoom` is a
//! scalar factor clamped into `[zoom_min, zoom_max]` every frame.
//!
//! The zoom bounds are factors, not distances: the camera-to-target
//! distance is the base offset's length times the current zoom, so the
//! guaranteed distance band is
//! `[|base_offset| * zoom_min, |base_offset| * zoom_max]`
//! (`lemma_camera_distance_within_zoom_bounds`, stated over squared
//! distances). Configure a base offset of length one world unit and the
//! two fields are the distance bounds themselves, in world units.

use vstd::prelude::*;

use crate::errors::ConfigurationError;
use crate::input::InputSnapshot;
use crate::math::clamp_i64;
use crate::math::dist_sq;
use crate::math::spec_clamp;
use crate::math::sq;
use crate::math::Vec3;
use crate::math::POS_LIMIT;
use crate::transform::Transform;
use crate::transform::Yaw;

verus! {

/// Largest magnitude a base offset component may have, in subunits.
pub const OFFSET_LIMIT: i64 = 1_000_000;

/// Largest zoom factor the rig supports.
pub const ZOOM_LIMIT: i64 = 1_000;

/// The camera rig's state.
#[derive(Clone, Copy, Debug, PartialEq, Eq, Structural)]
pub enum CameraState {
    /// Unattached; only before a camera target exists.
    Free,
    /// Position derived from the target transform, offset and zoom.
    Following,
    /// Orbit trigger held: look input rotates the camera about the target.
    Orbiting,
}

/// A third-person camera rig.
#[derive(Clone, Copy, Debug, PartialEq, Eq, Structural)]
pub struct CameraRig {
    pub state: CameraState,
    /// The followed entity, recorded when first observed; lookup only, the
    /// rig does not own the target's lifetime.
    pub target: Option<usize>,
    /// Offset direction from the target, per unit of zoom.
    pub base_offset: Vec3,
    /// Current orbit angle about the vertical axis.
    pub yaw: Yaw,
    /// Lower zoom-factor bound: the distance to the target never falls
    /// under `|base_offset| * zoom_min`.
    pub zoom_min: i64,
    /// Upper zoom-factor bound: the distance to the target never rises
    /// over `|base_offset| * zoom_max`.
    pub zoom_max: i64,
    /// Current zoom factor; the camera-to-target distance is the offset
    /// length times this factor.
    pub zoom: i64,
    /// Cursor-lock state; toggling it is a side effect on the display
    /// collaborator, not on world state.
    pub cursor_locked: bool,
}

/// The squared length of a vector.
pub open spec fn len_sq(v: Vec3) -> int {
    sq(v.x as int) + sq(v.y as int) + sq(v.z as int)
}

/// `v` scaled componentwise by `k`.
pub open spec fn spec_scaled(v: Vec3, k: int) -> Vec3 {
    Vec3 { x: (v.x * k) as i64, y: (v.y * k) as i64, z: (v.z * k) as i64 }
}

impl CameraRig {
    /// Offset within range and nonzero; zoom bounds reachable and the
    /// current zoom inside them.
    pub open spec fn valid(self) -> bool {
        &&& self.base_offset.within(OFFSET_LIMIT as int)
        &&& len_sq(self.base_offset) > 0
        &&& 0 < self.zoom_min <= self.zoom_max <= ZOOM_LIMIT
        &&& self.zoom_min <= self.zoom <= self.zoom_max
    }

    /// The camera offset from the target: the base offset rotated by the
    /// current orbit angle, scaled by the current zoom factor.
    pub open spec fn spec_offset(self) -> Vec3 {
        spec_scaled(self.yaw.spec_rotate(self.base_offset), self.zoom as int)
    }

    /// The camera position for a target at `target`.
    pub open spec fn spec_camera_position(self, target: Vec3) -> Vec3 {
        Vec3 {
            x: (target.x + self.spec_offset().x) as i64,
            y: (target.y + self.spec_offset().y) as i64,
            z: (target.z + self.spec_offset().z) as i64,
        }
    }

    /// The squared camera-to-target distance at the lower zoom bound.
    pub open spec fn min_dist_sq(self) -> int {
        len_sq(self.base_offset) * sq(self.zoom_min as int)
    }

    /// The squared camera-to-target distance at the upper zoom bound.
    pub open spec fn max_dist_sq(self) -> int {
        len_sq(self.base_offset) * sq(self.zoom_max as int)
    }

    /// Build a rig in the `Free` state, refusing unusable configuration:
    /// a zero offset, an offset out of range, or unreachable zoom bounds.
    /// The initial zoom sits at the lower bound.
    pub fn new(base_offset: Vec3, zoom_min: i64, zoom_max: i64) -> (r: Result<
        CameraRig,
        ConfigurationError,
    >)
        ensures
            match r {
                Result::Ok(rig) => {
                    &&& rig.valid()
                    &&& rig.state == CameraState::Free
                    &&& rig.target.is_none()
                    &&& rig.base_offset == base_offset
                    &&& rig.yaw == Yaw::Deg0
                    &&& rig.zoom_min == zoom_min
                    &&& rig.zoom_max == zoom_max
                    &&& rig.zoom == zoom_min
                    &&& !rig.cursor_locked
                },
                Result::Err(e) => {
                    &&& ((e is InvalidZoomBounds) <==> !(0 < zoom_min <= zoom_max <= ZOOM_LIMIT))
                    &&& ((e is InvalidCameraOffset) <==> (0 < zoom_min <= zoom_max <= ZOOM_LIMIT))
                },
            },
            r.is_ok() <==> (0 < zoom_min <= zoom_max <= ZOOM_LIMIT && base_offset.within(
                OFFSET_LIMIT as int,
            ) && len_sq(base_offset) > 0),
    {
        if !(0 < zoom_min && zoom_min <= zoom_max && zoom_max <= ZOOM_LIMIT) {
            return Result::Err(ConfigurationError::InvalidZoomBounds);
        }
        let inside = -OFFSET_LIMIT <= base_offset.x && base_offset.x <= OFFSET_LIMIT
            && -OFFSET_LIMIT <= base_offset.y && base_offset.y <= OFFSET_LIMIT && -OFFSET_LIMIT
            <= base_offset.z && base_offset.z <= OFFSET_LIMIT;
        let zero = base_offset.x == 0 && base_offset.y == 0 && base_offset.z == 0;
        if !inside || zero {
            proof {
                if zero {
                    assert(len_sq(base_offset) == 0);
                }
            }
            return Result::Err(ConfigurationError::InvalidCameraOffset);
        }
        proof {
            lemma_nonzero_vector_len_sq_positive(base_offset);
        }
        Result::Ok(
            CameraRig {
                state: CameraState::Free,
                target: Option::None,
                base_offset,
                yaw: Yaw::Deg0,
                zoom_min,
                zoom_max,
                zoom: zoom_min,
                cursor_locked: false,
            },
        )
    }
}

/// A vector with a nonzero component has positive squared length.
pub proof fn lemma_nonzero_vector_len_sq_positive(v: Vec3)
    requires
        v.x != 0 || v.y != 0 || v.z != 0,
    ensures
        len_sq(v) > 0,
{
    crate::math::lemma_square_nonneg(v.x as int);
    crate::math::lemma_square_nonneg(v.y as int);
    crate::math::lemma_square_nonneg(v.z as int);
    if v.x != 0 {
        assert(sq(v.x as int) > 0) by (nonlinear_arith)
            requires
                v.x != 0,
        ;
    } else if v.y != 0 {
        assert(sq(v.y as int) > 0) by (nonlinear_arith)
            requires
                v.y != 0,
        ;
    } else {
        assert(sq(v.z as int) > 0) by (nonlinear_arith)
            requires
                v.z != 0,
        ;
    }
}

/// The rig state after one frame's transitions: `Free` becomes `Following`
/// once a target is observed; the orbit trigger toggles between `Following`
/// and `Orbiting`.
pub open spec fn spec_step_state(state: CameraState, has_target: bool, orbit_held: bool) -> CameraState {
    match state {
        CameraState::Free => if has_target {
            CameraState::Following
        } else {
            CameraState::Free
        },
        CameraState::Following => if orbit_held {
            CameraState::Orbiting
        } else {
            CameraState::Following
        },
        CameraState::Orbiting => if orbit_held {
            CameraState::Orbiting
        } else {
            CameraState::Following
        },
    }
}

/// The yaw turned counter-clockwise by `steps` quarter turns (negative
/// turns clockwise).
pub open spec fn spec_yaw_turned(yaw: Yaw, steps: int) -> Yaw {
    let r = ((steps % 4) + 4) % 4;
    if r == 0 {
        yaw
    } else if r == 1 {
        yaw.spec_turned_ccw()
    } else if r == 2 {
        yaw.spec_turned_ccw().spec_turned_ccw()
    } else {
        yaw.spec_turned_ccw().spec_turned_ccw().spec_turned_ccw()
    }
}

/// Turn `yaw` by `steps` quarter turns.
pub fn yaw_turned(yaw: Yaw, steps: i64) -> (r: Yaw)
    ensures
        r == spec_yaw_turned(yaw, steps as int),
{
    let m: i64 = ((steps % 4) + 4) % 4;
    if m == 0 {
        yaw
    } else if m == 1 {
        yaw.turned_ccw()
    } else if m == 2 {
        yaw.turned_ccw().turned_ccw()
    } else {
        yaw.turned_ccw().turned_ccw().turned_ccw()
    }
}

/// The camera target as observed in the world state store this frame.
#[derive(Clone, Copy, Debug, PartialEq, Eq, Structural)]
pub struct TargetObservation {
    pub entity: usize,
    pub position: Vec3,
}

impl CameraRig {
    /// Advance the rig by one frame and reposition the camera.
    ///
    /// With no observed target the update is a no-op and yields no camera
    /// transform. Otherwise the state machine steps, the orbit angle turns
    /// by the look input while orbiting, the zoom is clamped into its
    /// bounds, the cursor lock toggles on request, and the camera transform
    /// is derived from the target position, rotated offset and zoom.
    pub fn update(&mut self, observed: Option<&TargetObservation>, input: &InputSnapshot) -> (cam:
        Option<Transform>)
        requires
            old(self).valid(),
            match observed {
                Option::Some(t) => t.position.in_bounds(),
                Option::None => true,
            },
        ensures
            final(self).valid(),
            match observed {
                Option::None => cam.is_none() && *final(self) == *old(self),
                Option::Some(t) => {
                    let rig = *final(self);
                    &&& rig.state == spec_step_state(old(self).state, true, input.orbit_held)
                    &&& rig.target == (if old(self).target.is_none() {
                        Option::Some(t.entity)
                    } else {
                        old(self).target
                    })
                    &&& rig.base_offset == old(self).base_offset
                    &&& rig.zoom_min == old(self).zoom_min
                    &&& rig.zoom_max == old(self).zoom_max
                    &&& rig.yaw == (if rig.state == CameraState::Orbiting {
                        spec_yaw_turned(old(self).yaw, input.look_quarter_turns as int)
                    } else {
                        old(self).yaw
                    })
                    &&& rig.zoom == spec_clamp(
                        old(self).zoom + input.zoom_steps,
                        old(self).zoom_min as int,
                        old(self).zoom_max as int,
                    )
                    &&& rig.cursor_locked == (if input.cursor_toggle {
                        !old(self).cursor_locked
                    } else {
                        old(self).cursor_locked
                    })
                    &&& cam == Option::Some(
                        Transform {
                            position: rig.spec_camera_position(t.position),
                            rotation: rig.yaw,
                            scale: Vec3 { x: crate::math::SCALE, y: crate::math::SCALE, z: crate::math::SCALE },
                        },
                    )
                },
            },
    {
        let t = match observed {
            Option::Some(t) => t,
            Option::None => {
                return Option::None;
            },
        };
        self.state = match self.state {
            CameraState::Free => CameraState::Following,
            CameraState::Following => if input.orbit_held {
                CameraState::Orbiting
            } else {
                CameraState::Following
            },
            CameraState::Orbiting => if input.orbit_held {
                CameraState::Orbiting
            } else {
                CameraState::Following
            },
        };
        if self.target.is_none() {
            self.target = Option::Some(t.entity);
        }
        if matches!(self.state, CameraState::Orbiting) {
            self.yaw = yaw_turned(self.yaw, input.look_quarter_turns);
        }
        let steps = clamp_i64(input.zoom_steps, -2 * ZOOM_LIMIT, 2 * ZOOM_LIMIT);
        let unclamped = self.zoom + steps;
        self.zoom = clamp_i64(unclamped, self.zoom_min, self.zoom_max);
        proof {
            assert(self.zoom == spec_clamp(
                old(self).zoom + input.zoom_steps,
                self.zoom_min as int,
                self.zoom_max as int,
            ));
        }
        if input.cursor_toggle {
            self.cursor_locked = !self.cursor_locked;
        }
        let rotated = self.yaw.rotate(&self.base_offset);
        proof {
            assert(rotated.within(OFFSET_LIMIT as int));
            assert(-1_000_000_000 <= rotated.x * self.zoom <= 1_000_000_000) by (nonlinear_arith)
                requires
                    -OFFSET_LIMIT as int <= rotated.x <= OFFSET_LIMIT as int,
                    0 <= self.zoom <= ZOOM_LIMIT as int,
            ;
            assert(-1_000_000_000 <= rotated.y * self.zoom <= 1_000_000_000) by (nonlinear_arith)
                requires
                    -OFFSET_LIMIT as int <= rotated.y <= OFFSET_LIMIT as int,
                    0 <= self.zoom <= ZOOM_LIMIT as int,
            ;
            assert(-1_000_000_000 <= rotated.z * self.zoom <= 1_000_000_000) by (nonlinear_arith)
                requires
                    -OFFSET_LIMIT as int <= rotated.z <= OFFSET_LIMIT as int,
                    0 <= self.zoom <= ZOOM_LIMIT as int,
            ;
        }
        let off = Vec3 {
            x: rotated.x * self.zoom,
            y: rotated.y * self.zoom,
            z: rotated.z * self.zoom,
        };
        let position = Vec3 {
            x: t.position.x + off.x,
            y: t.position.y + off.y,
            z: t.position.z + off.z,
        };
        Option::Some(
            Transform {
                position,
                rotation: self.yaw,
                scale: Vec3 { x: crate::math::SCALE, y: crate::math::SCALE, z: crate::math::SCALE },
            },
        )
    }
}

/// Rotating a vector by a quarter-turn yaw preserves its squared length.
pub proof fn lemma_rotate_preserves_len_sq(yaw: Yaw, v: Vec3)
    requires
        v.within(OFFSET_LIMIT as int),
    ensures
        len_sq(yaw.spec_rotate(v)) == len_sq(v),
{
    assert(sq(-(v.x as int)) == sq(v.x as int)) by (nonlinear_arith);
    assert(sq(-(v.z as int)) == sq(v.z as int)) by (nonlinear_arith);
}

/// Scaling a bounded vector by a bounded non-negative factor scales its
/// squared length by the factor's square.
pub proof fn lemma_scaled_len_sq(v: Vec3, k: int)
    requires
        v.within(OFFSET_LIMIT as int),
        0 <= k <= ZOOM_LIMIT,
    ensures
        len_sq(spec_scaled(v, k)) == len_sq(v) * sq(k),
{
    assert(-1_000_000_000 <= v.x * k <= 1_000_000_000) by (nonlinear_arith)
        requires
            -OFFSET_LIMIT as int <= v.x <= OFFSET_LIMIT as int,
            0 <= k <= ZOOM_LIMIT as int,
    ;
    assert(-1_000_000_000 <= v.y * k <= 1_000_000_000) by (nonlinear_arith)
        requires
            -OFFSET_LIMIT as int <= v.y <= OFFSET_LIMIT as int,
            0 <= k <= ZOOM_LIMIT as int,
    ;
    assert(-1_000_000_000 <= v.z * k <= 1_000_000_000) by (nonlinear_arith)
        requires
            -OFFSET_LIMIT as int <= v.z <= OFFSET_LIMIT as int,
            0 <= k <= ZOOM_LIMIT as int,
    ;
    let a = v.x as int;
    let b = v.y as int;
    let c = v.z as int;
    assert((a * k) * (a * k) == (a * a) * (k * k)) by (nonlinear_arith);
    assert((b * k) * (b * k) == (b * b) * (k * k)) by (nonlinear_arith);
    assert((c * k) * (c * k) == (c * c) * (k * k)) by (nonlinear_arith);
    assert((a * a) * (k * k) + (b * b) * (k * k) + (c * c) * (k * k) == (a * a + b * b + c * c) * (k
        * k)) by (nonlinear_arith);
}

/// Multiplying a non-negative quantity by the squares of ordered
/// non-negative factors preserves the order.
pub proof fn lemma_scale_sq_monotone(l: int, z1: int, z2: int)
    requires
        0 <= l,
        0 <= z1 <= z2,
    ensures
        l * sq(z1) <= l * sq(z2),
{
    assert(l * (z1 * z1) <= l * (z2 * z2)) by (nonlinear_arith)
        requires
            0 <= l,
            0 <= z1 <= z2,
    ;
}

/// The camera-to-target distance of a valid rig lies within the distances
/// at the two zoom bounds, inclusive: zooming can never push the camera
/// outside `[zoom_min, zoom_max]` times the offset length.
pub proof fn lemma_camera_distance_within_zoom_bounds(rig: CameraRig, target: Vec3)
    requires
        rig.valid(),
        target.in_bounds(),
    ensures
        rig.min_dist_sq() <= dist_sq(rig.spec_camera_position(target), target) <= rig.max_dist_sq(),
{
    let rot = rig.yaw.spec_rotate(rig.base_offset);
    let off = rig.spec_offset();
    lemma_rotate_preserves_len_sq(rig.yaw, rig.base_offset);
    assert(rot.within(OFFSET_LIMIT as int));
    lemma_scaled_len_sq(rot, rig.zoom as int);
    assert(-1_000_000_000 <= rot.x * rig.zoom <= 1_000_000_000) by (nonlinear_arith)
        requires
            -OFFSET_LIMIT as int <= rot.x <= OFFSET_LIMIT as int,
            0 <= rig.zoom <= ZOOM_LIMIT as int,
    ;
    assert(-1_000_000_000 <= rot.y * rig.zoom <= 1_000_000_000) by (nonlinear_arith)
        requires
            -OFFSET_LIMIT as int <= rot.y <= OFFSET_LIMIT as int,
            0 <= rig.zoom <= ZOOM_LIMIT as int,
    ;
    assert(-1_000_000_000 <= rot.z * rig.zoom <= 1_000_000_000) by (nonlinear_arith)
        requires
            -OFFSET_LIMIT as int <= rot.z <= OFFSET_LIMIT as int,
            0 <= rig.zoom <= ZOOM_LIMIT as int,
    ;
    assert(dist_sq(rig.spec_camera_position(target), target) == len_sq(off));
    lemma_scale_sq_monotone(len_sq(rig.base_offset), rig.zoom_min as int, rig.zoom as int);
    lemma_scale_sq_monotone(len_sq(rig.base_offset), rig.zoom as int, rig.zoom_max as int);
}

} // verus!
