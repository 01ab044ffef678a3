//! Physics integrator: advances a dynamic entity's position from its
//! movement intent, speed and the elapsed frame time, respecting locked
//! axes.
//!
//! The displacement on a movable axis is `sign * (speed * dt / 1000)`
//! subunits, with `speed` in subunits per second and `dt` in milliseconds —
//! the fixed-point form of `direction * speed * Δt`. Accumulation order is
//! direction-major (X, then Z), and a zero frame time yields a displacement
//! of exactly zero. A step that would carry a coordinate outside the valid
//! world range keeps that coordinate at its last valid value, so one
//! malformed frame cannot corrupt later ones.

use vstd::prelude::*;

use crate::input::MovementIntent;
use crate::math::DT_LIMIT;
use crate::math::MILLIS_PER_SECOND;
use crate::math::POS_LIMIT;
use crate::math::SCALE;
use crate::math::SPEED_LIMIT;
use crate::math::Vec3;
use crate::transform::Transform;

verus! {

/// The degrees of freedom the integrator is forbidden from modifying on an
/// entity. Rotational locks are listed for completeness: the integrator
/// never writes rotation at all, so they are trivially respected here and
/// matter to the camera tracker's orbit input instead.
#[derive(Clone, Copy, Debug, PartialEq, Eq, Structural)]
pub struct LockedAxes {
    pub translate_x: bool,
    pub translate_y: bool,
    pub translate_z: bool,
    pub rotate_x: bool,
    pub rotate_y: bool,
    pub rotate_z: bool,
}

impl LockedAxes {
    /// No degree of freedom locked.
    pub fn unlocked() -> (r: LockedAxes)
        ensures
            r == (LockedAxes {
                translate_x: false,
                translate_y: false,
                translate_z: false,
                rotate_x: false,
                rotate_y: false,
                rotate_z: false,
            }),
    {
        LockedAxes {
            translate_x: false,
            translate_y: false,
            translate_z: false,
            rotate_x: false,
            rotate_y: false,
            rotate_z: false,
        }
    }
}

/// The kinematic state of a dynamic entity: a velocity derived fresh each
/// frame, a speed in subunits per second, and the axes the integrator must
/// leave alone.
#[derive(Clone, Copy, Debug, PartialEq, Eq, Structural)]
pub struct PhysicsBody {
    pub velocity: Vec3,
    pub speed: i64,
    pub locked: LockedAxes,
}

impl PhysicsBody {
    /// Speed is positive and bounded.
    pub open spec fn valid(self) -> bool {
        0 < self.speed <= SPEED_LIMIT
    }

    pub fn new(speed: i64, locked: LockedAxes) -> (r: PhysicsBody)
        requires
            0 < speed <= SPEED_LIMIT,
        ensures
            r.velocity == (Vec3 { x: 0i64, y: 0i64, z: 0i64 }),
            r.speed == speed,
            r.locked == locked,
            r.valid(),
    {
        PhysicsBody { velocity: Vec3 { x: 0, y: 0, z: 0 }, speed, locked }
    }
}

impl Default for PhysicsBody {
    /// A body at rest with a speed of one world unit per second and no
    /// locked axes.
    fn default() -> (r: PhysicsBody)
        ensures
            r.velocity == (Vec3 { x: 0i64, y: 0i64, z: 0i64 }),
            r.speed == SCALE,
            r.locked == (LockedAxes {
                translate_x: false,
                translate_y: false,
                translate_z: false,
                rotate_x: false,
                rotate_y: false,
                rotate_z: false,
            }),
            r.valid(),
    {
        PhysicsBody {
            velocity: Vec3 { x: 0, y: 0, z: 0 },
            speed: SCALE,
            locked: LockedAxes {
                translate_x: false,
                translate_y: false,
                translate_z: false,
                rotate_x: false,
                rotate_y: false,
                rotate_z: false,
            },
        }
    }
}

/// The unsigned displacement a body covers in one frame, in subunits:
/// `speed * dt / 1000`, with the division exact whenever `speed * dt` is a
/// multiple of 1000.
pub open spec fn frame_displacement(speed: int, dt_ms: int) -> int {
    (speed * dt_ms) / (MILLIS_PER_SECOND as int)
}

/// The new coordinate of one axis stepped by an unsigned displacement
/// `disp`: unchanged when the intent's sign on the axis is zero or the axis
/// is locked, else moved by `sign * disp` — unless that would leave the
/// valid world range, in which case the coordinate keeps its last valid
/// value.
pub open spec fn stepped_axis(p: int, sign: int, locked: bool, disp: int) -> int {
    if sign == 0 || locked {
        p
    } else {
        let n = p + sign * disp;
        if -POS_LIMIT <= n <= POS_LIMIT {
            n
        } else {
            p
        }
    }
}

/// The new coordinate of one axis after integrating a frame of `dt_ms`
/// milliseconds at `speed` subunits per second.
pub open spec fn integrated_axis(p: int, sign: int, locked: bool, speed: int, dt_ms: int) -> int {
    stepped_axis(p, sign, locked, frame_displacement(speed, dt_ms))
}

/// The position after one integration step: the two horizontal axes follow
/// `integrated_axis`; the vertical axis carries no intent and is unchanged.
pub open spec fn spec_integrate_position(
    position: Vec3,
    body: PhysicsBody,
    intent: MovementIntent,
    dt_ms: int,
) -> Vec3 {
    Vec3 {
        x: integrated_axis(
            position.x as int,
            intent.x as int,
            body.locked.translate_x,
            body.speed as int,
            dt_ms,
        ) as i64,
        y: position.y,
        z: integrated_axis(
            position.z as int,
            intent.z as int,
            body.locked.translate_z,
            body.speed as int,
            dt_ms,
        ) as i64,
    }
}

/// The frame displacement of a bounded body over a bounded frame fits well
/// within the machine range and is non-negative.
pub proof fn lemma_frame_displacement_bounds(speed: int, dt_ms: int)
    requires
        0 <= speed <= SPEED_LIMIT,
        0 <= dt_ms <= DT_LIMIT,
    ensures
        0 <= speed * dt_ms <= 1_000_000_000_000,
        0 <= frame_displacement(speed, dt_ms) <= POS_LIMIT,
{
    assert(0 <= speed * dt_ms <= 1_000_000_000_000) by (nonlinear_arith)
        requires
            0 <= speed <= SPEED_LIMIT,
            0 <= dt_ms <= DT_LIMIT,
    ;
}

/// Advance one axis. `sign` is the intent's weight on the axis, `disp` the
/// unsigned frame displacement.
fn integrate_axis(p: i64, sign: i64, locked: bool, disp: i64) -> (r: i64)
    requires
        -POS_LIMIT <= p <= POS_LIMIT,
        -1 <= sign <= 1,
        0 <= disp <= POS_LIMIT,
    ensures
        r == stepped_axis(p as int, sign as int, locked, disp as int),
        -POS_LIMIT <= r <= POS_LIMIT,
{
    if sign == 0 || locked {
        p
    } else {
        let n: i64 = if sign > 0 {
            proof {
                assert(sign as int * disp as int == disp as int) by (nonlinear_arith)
                    requires
                        sign == 1,
                ;
            }
            p + disp
        } else {
            proof {
                assert(sign as int * disp as int == -(disp as int)) by (nonlinear_arith)
                    requires
                        sign == -1,
                ;
            }
            p - disp
        };
        if -POS_LIMIT <= n && n <= POS_LIMIT {
            n
        } else {
            p
        }
    }
}

/// Advance `transform` by one frame: for each horizontal axis present in
/// the intent and not locked, add `sign * speed * dt / 1000` subunits to the
/// position, X first, then Z. Rotation and scale are never altered, nor is
/// any locked axis. A zero `dt_ms` moves nothing.
pub fn integrate(
    transform: &Transform,
    body: &PhysicsBody,
    intent: &MovementIntent,
    dt_ms: i64,
) -> (r: Transform)
    requires
        transform.valid(),
        body.valid(),
        intent.valid(),
        0 <= dt_ms <= DT_LIMIT,
    ensures
        r.position == spec_integrate_position(transform.position, *body, *intent, dt_ms as int),
        r.rotation == transform.rotation,
        r.scale == transform.scale,
        r.valid(),
{
    proof {
        lemma_frame_displacement_bounds(body.speed as int, dt_ms as int);
    }
    let disp: i64 = (body.speed * dt_ms) / MILLIS_PER_SECOND;
    let x = integrate_axis(transform.position.x, intent.x, body.locked.translate_x, disp);
    let z = integrate_axis(transform.position.z, intent.z, body.locked.translate_z, disp);
    proof {
        assert(disp as int == frame_displacement(body.speed as int, dt_ms as int));
    }
    Transform {
        position: Vec3 { x, y: transform.position.y, z },
        rotation: transform.rotation,
        scale: transform.scale,
    }
}

/// Integrating a zero movement intent leaves the position unchanged, for
/// every frame time and every locked-axis set.
pub proof fn lemma_zero_intent_fixes_position(
    position: Vec3,
    body: PhysicsBody,
    intent: MovementIntent,
    dt_ms: int,
)
    requires
        intent.is_zero(),
    ensures
        spec_integrate_position(position, body, intent, dt_ms) == position,
{
}

/// An axis present in the intent and not locked moves by exactly the signed
/// frame displacement whenever that lands inside the valid world range, and
/// an axis that is locked — or the vertical axis, which carries no intent —
/// never moves.
pub proof fn lemma_integration_moves_free_axes_exactly(
    position: Vec3,
    body: PhysicsBody,
    intent: MovementIntent,
    dt_ms: int,
)
    requires
        0 <= dt_ms,
    ensures
        ({
            let moved = spec_integrate_position(position, body, intent, dt_ms);
            let d = frame_displacement(body.speed as int, dt_ms);
            &&& (intent.x != 0 && !body.locked.translate_x && -POS_LIMIT <= position.x + intent.x
                * d <= POS_LIMIT) ==> moved.x == position.x + intent.x * d
            &&& (intent.z != 0 && !body.locked.translate_z && -POS_LIMIT <= position.z + intent.z
                * d <= POS_LIMIT) ==> moved.z == position.z + intent.z * d
            &&& body.locked.translate_x ==> moved.x == position.x
            &&& body.locked.translate_z ==> moved.z == position.z
            &&& moved.y == position.y
        }),
{
}

/// Opposite-direction keys held together yield a zero net displacement on
/// their axis for the frame: the integrated position does not move on that
/// axis.
pub proof fn lemma_opposite_keys_no_displacement(
    position: Vec3,
    body: PhysicsBody,
    snapshot: crate::input::InputSnapshot,
    dt_ms: int,
)
    ensures
        snapshot.forward && snapshot.back ==> spec_integrate_position(
            position,
            body,
            crate::input::spec_poll(snapshot),
            dt_ms,
        ).x == position.x,
        snapshot.left && snapshot.right ==> spec_integrate_position(
            position,
            body,
            crate::input::spec_poll(snapshot),
            dt_ms,
        ).z == position.z,
{
}

} // verus!
