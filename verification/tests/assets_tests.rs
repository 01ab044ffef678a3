use maze_sim::assets::build_mesh_collider;
use maze_sim::assets::MeshData;
use maze_sim::assets::Triangle;
use maze_sim::collision::Collider;
use maze_sim::errors::ColliderBuildError;
use maze_sim::math::Vec3;

fn v(x: i64, y: i64, z: i64) -> Vec3 {
    Vec3 { x, y, z }
}

fn tri(a: usize, b: usize, c: usize) -> Triangle {
    Triangle { a, b, c }
}

fn box_mesh() -> MeshData {
    MeshData {
        vertices: vec![v(0, 0, 0), v(10, 0, 0), v(0, 20, 0), v(10, 20, 30)],
        triangles: vec![tri(0, 1, 2), tri(1, 2, 3)],
    }
}

#[test]
fn empty_mesh_is_refused() {
    let no_vertices = MeshData { vertices: vec![], triangles: vec![tri(0, 1, 2)] };
    assert_eq!(build_mesh_collider(&no_vertices).unwrap_err(), ColliderBuildError::EmptyMesh);
    let no_triangles = MeshData { vertices: vec![v(0, 0, 0)], triangles: vec![] };
    assert_eq!(build_mesh_collider(&no_triangles).unwrap_err(), ColliderBuildError::EmptyMesh);
}

#[test]
fn dangling_index_is_refused() {
    let mesh = MeshData {
        vertices: vec![v(0, 0, 0), v(10, 0, 0), v(0, 10, 10)],
        triangles: vec![tri(0, 1, 3)],
    };
    assert_eq!(build_mesh_collider(&mesh).unwrap_err(), ColliderBuildError::IndexOutOfRange);
}

#[test]
fn flat_mesh_is_refused() {
    let mesh = MeshData {
        vertices: vec![v(0, 0, 0), v(10, 0, 0), v(0, 0, 10)],
        triangles: vec![tri(0, 1, 2)],
    };
    assert_eq!(build_mesh_collider(&mesh).unwrap_err(), ColliderBuildError::DegenerateMesh);
}

#[test]
fn out_of_range_vertex_is_refused() {
    let mesh = MeshData {
        vertices: vec![v(0, 0, 0), v(2_000_000_000, 1, 1), v(0, 10, 10)],
        triangles: vec![tri(0, 1, 2)],
    };
    assert_eq!(build_mesh_collider(&mesh).unwrap_err(), ColliderBuildError::DegenerateMesh);
}

#[test]
fn odd_extents_overshoot_the_high_face_by_one_subunit() {
    // Bounds [0,5] x [0,7] x [0,9]: half extents round up, so each low
    // face sits exactly on the least coordinate and each high face one
    // subunit above the greatest.
    let mesh = MeshData {
        vertices: vec![v(0, 0, 0), v(5, 7, 9)],
        triangles: vec![tri(0, 1, 0)],
    };
    let placed = build_mesh_collider(&mesh).unwrap();
    match placed.shape {
        Collider::Cuboid { half } => assert_eq!(half, v(3, 4, 5)),
        _ => panic!("expected a cuboid"),
    }
    assert_eq!(placed.center, v(3, 4, 5));
}

#[test]
fn built_collider_is_the_covering_box() {
    let placed = build_mesh_collider(&box_mesh()).unwrap();
    // Bounds [0,10] x [0,20] x [0,30]: half extents rounded up from half
    // the extent, center at the low corner plus the half extent.
    match placed.shape {
        Collider::Cuboid { half } => {
            assert_eq!(half, v(5, 10, 15));
        }
        _ => panic!("expected a cuboid"),
    }
    assert_eq!(placed.center, v(5, 10, 15));
}
