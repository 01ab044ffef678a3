use maze_sim::input::poll;
use maze_sim::input::InputSnapshot;
use maze_sim::input::MovementIntent;
use maze_sim::math::Vec3;
use maze_sim::physics::integrate;
use maze_sim::physics::LockedAxes;
use maze_sim::physics::PhysicsBody;
use maze_sim::transform::Transform;
use maze_sim::transform::Yaw;

fn unit_scale() -> Vec3 {
    Vec3 { x: 1000, y: 1000, z: 1000 }
}

fn transform_at(x: i64, y: i64, z: i64) -> Transform {
    Transform { position: Vec3 { x, y, z }, rotation: Yaw::Deg0, scale: unit_scale() }
}

fn body(speed: i64, locked: LockedAxes) -> PhysicsBody {
    PhysicsBody { velocity: Vec3 { x: 0, y: 0, z: 0 }, speed, locked }
}

fn keys(forward: bool, back: bool, left: bool, right: bool) -> InputSnapshot {
    InputSnapshot {
        forward,
        back,
        left,
        right,
        orbit_held: false,
        look_quarter_turns: 0,
        zoom_steps: 0,
        cursor_toggle: false,
    }
}

#[test]
fn zero_intent_leaves_position_unchanged() {
    let t = transform_at(123, 456, 789);
    let b = body(9000, LockedAxes::unlocked());
    let intent = MovementIntent { x: 0, z: 0 };
    let moved = integrate(&t, &b, &intent, 250);
    assert_eq!(moved.position, t.position);
}

#[test]
fn zero_dt_moves_nothing() {
    let t = transform_at(-500, 0, 500);
    let b = body(9000, LockedAxes::unlocked());
    let intent = MovementIntent { x: 1, z: -1 };
    let moved = integrate(&t, &b, &intent, 0);
    assert_eq!(moved.position, t.position);
}

#[test]
fn free_axis_moves_by_speed_times_dt() {
    // 2.5 units/s for 2 s: exactly 5.0 units on each moved axis.
    let t = transform_at(0, 0, 0);
    let b = body(2500, LockedAxes::unlocked());
    let intent = MovementIntent { x: 1, z: -1 };
    let moved = integrate(&t, &b, &intent, 2000);
    assert_eq!(moved.position, Vec3 { x: 5000, y: 0, z: -5000 });
}

#[test]
fn locked_axis_never_moves() {
    let t = transform_at(100, 200, 300);
    let locked = LockedAxes {
        translate_x: true,
        translate_y: false,
        translate_z: false,
        rotate_x: false,
        rotate_y: false,
        rotate_z: false,
    };
    let b = body(9000, locked);
    let intent = MovementIntent { x: -1, z: 1 };
    let moved = integrate(&t, &b, &intent, 100);
    assert_eq!(moved.position.x, 100);
    assert_eq!(moved.position.z, 300 + 900);
    assert_eq!(moved.position.y, 200);
}

#[test]
fn forward_key_maps_to_negative_x() {
    let intent = poll(&keys(true, false, false, false));
    assert_eq!(intent.x, -1);
    assert_eq!(intent.z, 0);
}

#[test]
fn key_axis_conventions() {
    assert_eq!(poll(&keys(false, true, false, false)).x, 1);
    assert_eq!(poll(&keys(false, false, true, false)).z, 1);
    assert_eq!(poll(&keys(false, false, false, true)).z, -1);
}

#[test]
fn opposite_keys_cancel_on_axis() {
    let intent = poll(&keys(true, true, false, false));
    assert_eq!(intent.x, 0);
    let intent = poll(&keys(false, false, true, true));
    assert_eq!(intent.z, 0);
    // And the frame's displacement on the cancelled axis is zero.
    let t = transform_at(0, 0, 0);
    let b = body(9000, LockedAxes::unlocked());
    let moved = integrate(&t, &b, &poll(&keys(true, true, false, false)), 100);
    assert_eq!(moved.position.x, 0);
}

#[test]
fn diagonal_movement_is_not_normalized() {
    // Both axes move by the full per-axis displacement at once.
    let t = transform_at(0, 0, 0);
    let b = body(9000, LockedAxes::unlocked());
    let moved = integrate(&t, &b, &poll(&keys(true, false, true, false)), 100);
    assert_eq!(moved.position, Vec3 { x: -900, y: 0, z: 900 });
}

#[test]
fn forward_scenario_at_speed_nine() {
    // Player at the origin, speed 9.0 units/s, forward held, dt 0.1 s:
    // the new position is exactly (-0.9, 0, 0).
    let t = transform_at(0, 0, 0);
    let b = body(9000, LockedAxes::unlocked());
    let moved = integrate(&t, &b, &poll(&keys(true, false, false, false)), 100);
    assert_eq!(moved.position, Vec3 { x: -900, y: 0, z: 0 });
}

#[test]
fn displacement_adds_to_a_nonzero_start() {
    // From (30, 0, 8): one 16 ms frame at 9.0 units/s moves exactly
    // 9000 * 16 / 1000 = 144 subunits on each moved axis.
    let t = transform_at(30_000, 0, 8_000);
    let b = body(9000, LockedAxes::unlocked());
    let moved = integrate(&t, &b, &poll(&keys(true, false, false, true)), 16);
    assert_eq!(moved.position, Vec3 { x: 30_000 - 144, y: 0, z: 8_000 - 144 });
}

#[test]
fn step_out_of_world_range_keeps_last_valid_value() {
    // A displacement that would leave the valid coordinate range is
    // rejected and the axis keeps its last valid value.
    let t = transform_at(1_000_000_000, 0, 0);
    let b = body(9000, LockedAxes::unlocked());
    let moved = integrate(&t, &b, &MovementIntent { x: 1, z: 0 }, 100);
    assert_eq!(moved.position.x, 1_000_000_000);
}
