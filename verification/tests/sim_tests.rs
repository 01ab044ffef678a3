use maze_sim::assets::AssetResolution;
use maze_sim::assets::MeshData;
use maze_sim::assets::Triangle;
use maze_sim::camera::CameraState;
use maze_sim::errors::ConfigurationError;
use maze_sim::errors::InitWarning;
use maze_sim::input::InputSnapshot;
use maze_sim::math::Vec3;
use maze_sim::physics::LockedAxes;
use maze_sim::sim::init_world;
use maze_sim::sim::maze_source_from_asset;
use maze_sim::sim::MazeSource;
use maze_sim::sim::WorldConfig;

fn v(x: i64, y: i64, z: i64) -> Vec3 {
    Vec3 { x, y, z }
}

fn player_locks() -> LockedAxes {
    LockedAxes {
        translate_x: false,
        translate_y: true,
        translate_z: false,
        rotate_x: true,
        rotate_y: false,
        rotate_z: true,
    }
}

/// The original scene in fixed point: a 9.0 units/s sphere of radius 1.0
/// above a broad flat ground slab, with a third-person camera two to ten
/// offset-lengths away.
fn config() -> WorldConfig {
    WorldConfig {
        gravity: v(0, 0, 0),
        player_start: v(0, 0, 0),
        player_speed: 9000,
        player_radius: 1000,
        player_locked: player_locks(),
        ground_center: v(0, -2000, 0),
        ground_half: v(100_000, 100, 100_000),
        camera_offset: v(0, 300, 400),
        zoom_min: 2,
        zoom_max: 10,
    }
}

fn quiet() -> InputSnapshot {
    InputSnapshot {
        forward: false,
        back: false,
        left: false,
        right: false,
        orbit_held: false,
        look_quarter_turns: 0,
        zoom_steps: 0,
        cursor_toggle: false,
    }
}

fn wall_mesh() -> MeshData {
    // A long wall slab from (4500, -2000, -20000) to (5500, 2000, 20000):
    // covering box center (5000, 0, 0), half extents (500, 2000, 20000).
    MeshData {
        vertices: vec![v(4500, -2000, -20000), v(5500, 2000, 20000)],
        triangles: vec![Triangle { a: 0, b: 1, c: 0 }],
    }
}

#[test]
fn zero_speed_is_fatal() {
    let mut c = config();
    c.player_speed = 0;
    assert_eq!(init_world(&c, MazeSource::Missing).unwrap_err(), ConfigurationError::InvalidSpeed);
}

#[test]
fn unreachable_zoom_bounds_are_fatal() {
    let mut c = config();
    c.zoom_min = 10;
    c.zoom_max = 2;
    assert_eq!(
        init_world(&c, MazeSource::Missing).unwrap_err(),
        ConfigurationError::InvalidZoomBounds
    );
}

#[test]
fn zero_camera_offset_is_fatal() {
    let mut c = config();
    c.camera_offset = v(0, 0, 0);
    assert_eq!(
        init_world(&c, MazeSource::Missing).unwrap_err(),
        ConfigurationError::InvalidCameraOffset
    );
}

#[test]
fn invalid_extents_are_fatal() {
    let mut c = config();
    c.player_radius = 0;
    assert_eq!(
        init_world(&c, MazeSource::Missing).unwrap_err(),
        ConfigurationError::InvalidGeometry
    );
}

#[test]
fn start_inside_the_ground_is_fatal() {
    let mut c = config();
    c.player_start = v(0, -2000, 0);
    assert_eq!(
        init_world(&c, MazeSource::Missing).unwrap_err(),
        ConfigurationError::InvalidGeometry
    );
}

#[test]
fn missing_maze_asset_is_recovered_with_a_warning() {
    // The asset loader reports a missing maze model: initialization still
    // completes, the maze entity exists with no collider, and a warning is
    // recorded.
    let source = maze_source_from_asset(&AssetResolution::Missing);
    assert!(matches!(source, MazeSource::Missing));
    let sim = init_world(&config(), source).unwrap();
    assert_eq!(sim.world.collider_of(sim.maze), None);
    assert!(sim.world.tags_of(sim.maze).maze);
    assert_eq!(sim.warnings.len(), 1);
    assert_eq!(sim.warnings[0], InitWarning::AssetMissing { entity: sim.maze.index });
}

#[test]
fn degenerate_maze_mesh_is_recovered_with_a_warning() {
    let flat = MeshData {
        vertices: vec![v(0, 0, 0), v(10, 0, 0), v(0, 0, 10)],
        triangles: vec![Triangle { a: 0, b: 1, c: 2 }],
    };
    let source = maze_source_from_asset(&AssetResolution::Resolved(flat));
    assert!(matches!(source, MazeSource::Failed(_)));
    let sim = init_world(&config(), source).unwrap();
    assert_eq!(sim.world.collider_of(sim.maze), None);
    assert_eq!(sim.warnings.len(), 1);
    assert!(matches!(sim.warnings[0], InitWarning::ColliderFailed { .. }));
}

#[test]
fn built_maze_collider_is_registered() {
    let source = maze_source_from_asset(&AssetResolution::Resolved(wall_mesh()));
    assert!(matches!(source, MazeSource::Built(_)));
    let sim = init_world(&config(), source).unwrap();
    assert!(sim.world.collider_of(sim.maze).is_some());
    assert!(sim.warnings.is_empty());
    assert_eq!(sim.collision.statics.len(), 2);
}

#[test]
fn forward_frame_moves_to_minus_point_nine() {
    // Player at the origin, speed 9.0, forward held, dt 0.1 s, no walls
    // nearby: the new position is (-0.9, 0, 0) exactly in fixed point.
    let mut sim = init_world(&config(), MazeSource::Missing).unwrap();
    let mut input = quiet();
    input.forward = true;
    sim.step(&input, 100);
    let pos = sim.world.transform_of(sim.player).unwrap().position;
    assert_eq!(pos, v(-900, 0, 0));
}

#[test]
fn opposite_keys_hold_the_player_still() {
    let mut sim = init_world(&config(), MazeSource::Missing).unwrap();
    let mut input = quiet();
    input.forward = true;
    input.back = true;
    input.left = true;
    input.right = true;
    sim.step(&input, 250);
    let pos = sim.world.transform_of(sim.player).unwrap().position;
    assert_eq!(pos, v(0, 0, 0));
}

#[test]
fn player_stops_tangent_to_a_wall() {
    // Approaching the wall head-on along +X with some sideways motion: the
    // corrected position is exactly tangent to the wall face, and the
    // perpendicular motion is kept.
    let source = maze_source_from_asset(&AssetResolution::Resolved(wall_mesh()));
    let mut sim = init_world(&config(), source).unwrap();
    let mut input = quiet();
    input.back = true;
    input.left = true;
    // 9.0 units/s for 0.45 s: proposed (4050, 0, 4050); x clamps to
    // 4500 - 1000 = 3500, z passes.
    sim.step(&input, 450);
    let pos = sim.world.transform_of(sim.player).unwrap().position;
    assert_eq!(pos, v(3500, 0, 4050));
}

#[test]
fn frame_reports_camera_following_the_player() {
    let mut sim = init_world(&config(), MazeSource::Missing).unwrap();
    let mut input = quiet();
    input.forward = true;
    let out = sim.step(&input, 100);
    assert_eq!(sim.camera.state, CameraState::Following);
    let cam = out.camera.unwrap();
    // Offset (0, 300, 400) at the initial zoom factor 2, from (-900, 0, 0).
    assert_eq!(cam.position, v(-900, 600, 800));
    assert!(out.contacts.is_empty());
}

#[test]
fn frames_are_deterministic() {
    let mut a = init_world(&config(), MazeSource::Missing).unwrap();
    let mut b = init_world(&config(), MazeSource::Missing).unwrap();
    let mut input = quiet();
    input.forward = true;
    input.left = true;
    for _ in 0..10 {
        a.step(&input, 16);
        b.step(&input, 16);
    }
    assert_eq!(
        a.world.transform_of(a.player).unwrap().position,
        b.world.transform_of(b.player).unwrap().position
    );
}
