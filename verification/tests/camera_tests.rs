use maze_sim::camera::CameraRig;
use maze_sim::camera::CameraState;
use maze_sim::camera::TargetObservation;
use maze_sim::errors::ConfigurationError;
use maze_sim::input::InputSnapshot;
use maze_sim::math::Vec3;
use maze_sim::transform::Yaw;

fn v(x: i64, y: i64, z: i64) -> Vec3 {
    Vec3 { x, y, z }
}

fn quiet_input() -> InputSnapshot {
    InputSnapshot {
        forward: false,
        back: false,
        left: false,
        right: false,
        orbit_held: false,
        look_quarter_turns: 0,
        zoom_steps: 0,
        cursor_toggle: false,
    }
}

/// Base offset (0, 300, 400) has length 500, so the camera distance is
/// exactly 500 times the zoom factor.
fn rig() -> CameraRig {
    CameraRig::new(v(0, 300, 400), 2, 10).unwrap()
}

fn dist_sq(a: Vec3, b: Vec3) -> i128 {
    let dx = (a.x - b.x) as i128;
    let dy = (a.y - b.y) as i128;
    let dz = (a.z - b.z) as i128;
    dx * dx + dy * dy + dz * dz
}

#[test]
fn unreachable_zoom_bounds_are_refused() {
    assert_eq!(CameraRig::new(v(0, 300, 400), 10, 2).unwrap_err(), ConfigurationError::InvalidZoomBounds);
    assert_eq!(CameraRig::new(v(0, 300, 400), 0, 2).unwrap_err(), ConfigurationError::InvalidZoomBounds);
}

#[test]
fn zero_offset_is_refused() {
    assert_eq!(CameraRig::new(v(0, 0, 0), 2, 10).unwrap_err(), ConfigurationError::InvalidCameraOffset);
}

#[test]
fn free_rig_without_target_is_noop() {
    let mut r = rig();
    let cam = r.update(None, &quiet_input());
    assert!(cam.is_none());
    assert_eq!(r.state, CameraState::Free);
}

#[test]
fn target_observation_attaches_the_camera() {
    let mut r = rig();
    let obs = TargetObservation { entity: 0, position: v(1000, 0, 0) };
    let cam = r.update(Some(&obs), &quiet_input()).unwrap();
    assert_eq!(r.state, CameraState::Following);
    assert_eq!(r.target, Some(0));
    // Zoom starts at the lower bound: offset (0, 300, 400) * 2.
    assert_eq!(cam.position, v(1000, 600, 800));
}

#[test]
fn orbit_trigger_toggles_orbiting() {
    let mut r = rig();
    let obs = TargetObservation { entity: 0, position: v(0, 0, 0) };
    r.update(Some(&obs), &quiet_input());
    let mut orbit = quiet_input();
    orbit.orbit_held = true;
    r.update(Some(&obs), &orbit);
    assert_eq!(r.state, CameraState::Orbiting);
    r.update(Some(&obs), &quiet_input());
    assert_eq!(r.state, CameraState::Following);
}

#[test]
fn look_input_rotates_only_while_orbiting() {
    let mut r = rig();
    let obs = TargetObservation { entity: 0, position: v(0, 0, 0) };
    let mut looking = quiet_input();
    looking.look_quarter_turns = 1;
    r.update(Some(&obs), &looking);
    assert_eq!(r.yaw, Yaw::Deg0);
    looking.orbit_held = true;
    let cam = r.update(Some(&obs), &looking).unwrap();
    assert_eq!(r.yaw, Yaw::Deg90);
    // A quarter turn maps (x, z) to (z, -x): offset (0, 300, 400) * 2
    // becomes (800, 600, 0).
    assert_eq!(cam.position, v(800, 600, 0));
}

#[test]
fn zoom_is_clamped_into_bounds() {
    let mut r = rig();
    let obs = TargetObservation { entity: 0, position: v(0, 0, 0) };
    let mut scroll = quiet_input();
    scroll.zoom_steps = 1_000_000;
    r.update(Some(&obs), &scroll);
    assert_eq!(r.zoom, 10);
    scroll.zoom_steps = -1_000_000;
    r.update(Some(&obs), &scroll);
    assert_eq!(r.zoom, 2);
    scroll.zoom_steps = 3;
    r.update(Some(&obs), &scroll);
    assert_eq!(r.zoom, 5);
}

#[test]
fn camera_distance_stays_within_zoom_bounds() {
    let mut r = rig();
    let target = v(123_000, -500, 42);
    let obs = TargetObservation { entity: 0, position: target };
    let mut input = quiet_input();
    input.orbit_held = true;
    // Distance bounds: (500 * 2)^2 and (500 * 10)^2.
    let lo = 1_000_000i128;
    let hi = 25_000_000i128;
    for step in [0i64, 3, -1, 100, -100, 7] {
        input.zoom_steps = step;
        input.look_quarter_turns = step;
        let cam = r.update(Some(&obs), &input).unwrap();
        let d2 = dist_sq(cam.position, target);
        assert!(lo <= d2 && d2 <= hi);
    }
}

#[test]
fn look_input_wraps_around_full_turns() {
    let mut r = rig();
    let obs = TargetObservation { entity: 0, position: v(0, 0, 0) };
    let mut looking = quiet_input();
    looking.orbit_held = true;
    looking.look_quarter_turns = 4;
    r.update(Some(&obs), &looking);
    assert_eq!(r.yaw, Yaw::Deg0);
    looking.look_quarter_turns = -1;
    r.update(Some(&obs), &looking);
    assert_eq!(r.yaw, Yaw::Deg270);
    looking.look_quarter_turns = 6;
    r.update(Some(&obs), &looking);
    assert_eq!(r.yaw, Yaw::Deg90);
}

#[test]
fn cursor_lock_toggles_on_request() {
    let mut r = rig();
    let obs = TargetObservation { entity: 0, position: v(0, 0, 0) };
    assert!(!r.cursor_locked);
    let mut toggle = quiet_input();
    toggle.cursor_toggle = true;
    r.update(Some(&obs), &toggle);
    assert!(r.cursor_locked);
    r.update(Some(&obs), &toggle);
    assert!(!r.cursor_locked);
}
