//! Input mapper: turns the current frame's device state into a movement
//! intent.
//!
//! The four canonical movement keys map to signed contributions on the two
//! horizontal axes, following the forward-maps-to-negative-X convention:
//! forward pulls X down, back pushes it up, left pushes Z up, right pulls it
//! down. Opposite keys held together cancel exactly; orthogonal keys compose
//! and are deliberately not normalized, so diagonal movement is faster than
//! axis-aligned movement.

use vstd::prelude::*;

verus! {

/// The device state for one frame, re-read every frame.
///
/// `look_quarter_turns` is the net orbit look input, in quarter turns about
/// the vertical axis (positive counter-clockwise); `zoom_steps` is the net
/// scroll input, in subunits of camera distance (positive zooms out).
#[derive(Clone, Copy, Debug, PartialEq, Eq, Structural)]
pub struct InputSnapshot {
    pub forward: bool,
    pub back: bool,
    pub left: bool,
    pub right: bool,
    pub orbit_held: bool,
    pub look_quarter_turns: i64,
    pub zoom_steps: i64,
    pub cursor_toggle: bool,
}

/// The net signed contribution of a key pair on one axis: the positive key
/// counts +1, the negative key -1, both together cancel.
pub open spec fn axis_contribution(positive: bool, negative: bool) -> int {
    (if positive {
        1int
    } else {
        0int
    }) - (if negative {
        1int
    } else {
        0int
    })
}

/// The per-frame desired direction of motion, before speed and time scaling:
/// a signed weight in `{-1, 0, 1}` per horizontal axis.
#[derive(Clone, Copy, Debug, PartialEq, Eq, Structural)]
pub struct MovementIntent {
    pub x: i64,
    pub z: i64,
}

impl MovementIntent {
    pub open spec fn valid(self) -> bool {
        &&& -1 <= self.x <= 1
        &&& -1 <= self.z <= 1
    }

    pub open spec fn is_zero(self) -> bool {
        self.x == 0 && self.z == 0
    }
}

/// The movement intent that `snapshot`'s pressed-key set maps to.
pub open spec fn spec_poll(snapshot: InputSnapshot) -> MovementIntent {
    MovementIntent {
        x: axis_contribution(snapshot.back, snapshot.forward) as i64,
        z: axis_contribution(snapshot.left, snapshot.right) as i64,
    }
}

/// Map the current pressed-key set to a movement intent.
///
/// Synchronous and total: always returns immediately with the state the
/// snapshot carries.
pub fn poll(snapshot: &InputSnapshot) -> (r: MovementIntent)
    ensures
        r == spec_poll(*snapshot),
        r.valid(),
        snapshot.forward == snapshot.back && snapshot.left == snapshot.right ==> r.is_zero(),
{
    let x: i64 = (if snapshot.back {
        1i64
    } else {
        0i64
    }) - (if snapshot.forward {
        1i64
    } else {
        0i64
    });
    let z: i64 = (if snapshot.left {
        1i64
    } else {
        0i64
    }) - (if snapshot.right {
        1i64
    } else {
        0i64
    });
    MovementIntent { x, z }
}

/// Opposite-direction keys held together on the same axis produce a zero
/// contribution on that axis.
pub proof fn lemma_opposite_keys_cancel(snapshot: InputSnapshot)
    ensures
        snapshot.forward && snapshot.back ==> spec_poll(snapshot).x == 0,
        snapshot.left && snapshot.right ==> spec_poll(snapshot).z == 0,
{
}

} // verus!
