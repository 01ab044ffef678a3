use maze_sim::collision::Collider;
use maze_sim::math::Vec3;
use maze_sim::physics::LockedAxes;
use maze_sim::physics::PhysicsBody;
use maze_sim::transform::Transform;
use maze_sim::transform::Yaw;
use maze_sim::world::ComponentSet;
use maze_sim::world::TagSet;
use maze_sim::world::World;

fn transform_at(x: i64, y: i64, z: i64) -> Transform {
    Transform {
        position: Vec3 { x, y, z },
        rotation: Yaw::Deg0,
        scale: Vec3 { x: 1000, y: 1000, z: 1000 },
    }
}

fn body(speed: i64) -> PhysicsBody {
    PhysicsBody { velocity: Vec3 { x: 0, y: 0, z: 0 }, speed, locked: LockedAxes::unlocked() }
}

fn nothing() -> ComponentSet {
    ComponentSet {
        transform: false,
        body: false,
        collider: false,
        controllable: false,
        camera_target: false,
        ground: false,
        maze: false,
    }
}

#[test]
fn created_entities_have_ascending_ids() {
    let mut w = World::new();
    let a = w.create_entity();
    let b = w.create_entity();
    let c = w.create_entity();
    assert_eq!(a.index, 0);
    assert_eq!(b.index, 1);
    assert_eq!(c.index, 2);
}

#[test]
fn attach_and_read_back() {
    let mut w = World::new();
    let e = w.create_entity();
    assert!(w.transform_of(e).is_none());
    w.attach_transform(e, transform_at(1, 2, 3));
    w.attach_body(e, body(9000));
    w.attach_collider(e, Collider::Sphere { radius: 1000 });
    assert_eq!(w.transform_of(e).unwrap().position, Vec3 { x: 1, y: 2, z: 3 });
    assert_eq!(w.body_of(e).unwrap().speed, 9000);
    assert!(matches!(w.collider_of(e).unwrap(), Collider::Sphere { radius: 1000 }));
}

#[test]
fn reattaching_replaces_the_component() {
    let mut w = World::new();
    let e = w.create_entity();
    w.attach_transform(e, transform_at(1, 1, 1));
    w.attach_transform(e, transform_at(7, 7, 7));
    assert_eq!(w.transform_of(e).unwrap().position, Vec3 { x: 7, y: 7, z: 7 });
}

#[test]
fn query_returns_exactly_the_matching_entities_in_order() {
    let mut w = World::new();
    let a = w.create_entity();
    let b = w.create_entity();
    let c = w.create_entity();
    w.attach_transform(a, transform_at(0, 0, 0));
    w.attach_transform(b, transform_at(0, 0, 0));
    w.attach_transform(c, transform_at(0, 0, 0));
    w.attach_body(a, body(1000));
    w.attach_body(c, body(2000));
    w.set_tags(c, TagSet { controllable: true, camera_target: true, ground: false, maze: false });

    let with_transform = ComponentSet { transform: true, ..nothing() };
    let ids: Vec<usize> = w.query(with_transform).iter().map(|e| e.index).collect();
    assert_eq!(ids, vec![0, 1, 2]);

    let with_body = ComponentSet { transform: true, body: true, ..nothing() };
    let ids: Vec<usize> = w.query(with_body).iter().map(|e| e.index).collect();
    assert_eq!(ids, vec![0, 2]);

    let controllable = ComponentSet { controllable: true, ..nothing() };
    let ids: Vec<usize> = w.query(controllable).iter().map(|e| e.index).collect();
    assert_eq!(ids, vec![2]);

    let with_maze = ComponentSet { maze: true, ..nothing() };
    assert!(w.query(with_maze).is_empty());
}
