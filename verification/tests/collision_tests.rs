use maze_sim::collision::overlaps;
use maze_sim::collision::Collider;
use maze_sim::collision::CollisionWorld;
use maze_sim::collision::PlacedCollider;
use maze_sim::math::Vec3;

fn v(x: i64, y: i64, z: i64) -> Vec3 {
    Vec3 { x, y, z }
}

fn sphere(radius: i64) -> Collider {
    Collider::Sphere { radius }
}

fn cuboid(hx: i64, hy: i64, hz: i64) -> Collider {
    Collider::Cuboid { half: Vec3 { x: hx, y: hy, z: hz } }
}

/// A wall of half extents (500, 2000, 2000) centered at x = 5000: its near
/// face (toward the origin) lies at x = 4500.
fn wall_world() -> CollisionWorld {
    let mut w = CollisionWorld::new();
    w.register_static(PlacedCollider { shape: cuboid(500, 2000, 2000), center: v(5000, 0, 0) });
    w
}

#[test]
fn spheres_overlap_strictly() {
    let a = sphere(1000);
    let b = sphere(1000);
    assert!(overlaps(&a, &v(0, 0, 0), &b, &v(1999, 0, 0)));
    // Exactly tangent spheres do not overlap.
    assert!(!overlaps(&a, &v(0, 0, 0), &b, &v(2000, 0, 0)));
    assert!(!overlaps(&a, &v(0, 0, 0), &b, &v(2001, 0, 0)));
}

#[test]
fn cuboids_overlap_strictly() {
    let a = cuboid(500, 500, 500);
    let b = cuboid(500, 500, 500);
    assert!(overlaps(&a, &v(0, 0, 0), &b, &v(999, 0, 0)));
    assert!(!overlaps(&a, &v(0, 0, 0), &b, &v(1000, 0, 0)));
}

#[test]
fn sphere_cuboid_face_and_corner() {
    let s = sphere(1000);
    let c = cuboid(500, 500, 500);
    // Head-on against a face.
    assert!(overlaps(&s, &v(1499, 0, 0), &c, &v(0, 0, 0)));
    assert!(!overlaps(&s, &v(1500, 0, 0), &c, &v(0, 0, 0)));
    // Near a corner the closest point is the corner itself: distance
    // 900 on two axes is sqrt(2)*900 > 1000 away.
    assert!(!overlaps(&s, &v(1400, 1400, 0), &c, &v(0, 0, 0)));
    assert!(overlaps(&s, &v(1100, 1100, 0), &c, &v(0, 0, 0)));
}

#[test]
fn resolve_returns_clear_proposal_unchanged() {
    let w = wall_world();
    let s = sphere(1000);
    let from = v(0, 0, 0);
    let proposed = v(2000, 0, 300);
    let corrected = w.resolve(&s, &from, &proposed);
    assert_eq!(corrected, proposed);
}

#[test]
fn resolve_is_idempotent() {
    let w = wall_world();
    let s = sphere(1000);
    let from = v(0, 0, 0);
    let proposed = v(3800, 0, 600);
    let once = w.resolve(&s, &from, &proposed);
    let twice = w.resolve(&s, &once, &once);
    assert_eq!(once, twice);
}

#[test]
fn head_on_wall_clamps_exactly_tangent() {
    // The proposed displacement would put the sphere surface 0.3 units past
    // the wall face at x = 4500; the corrected position is exactly tangent
    // (center at 4500 - 1000 = 3500), and the perpendicular axis's motion
    // is unaffected.
    let w = wall_world();
    let s = sphere(1000);
    let from = v(0, 0, 0);
    let proposed = v(3800, 0, 600);
    let corrected = w.resolve(&s, &from, &proposed);
    assert_eq!(corrected, v(3500, 0, 600));
    // Tangent but clear: resolving again changes nothing.
    assert!(!overlaps(&s, &corrected, &cuboid(500, 2000, 2000), &v(5000, 0, 0)));
}

#[test]
fn head_on_wall_clamps_along_negative_x() {
    // Same approach in the negative X direction: the far face at -4500
    // stops the sphere center at -4500 + 1000 = -3500.
    let mut w = CollisionWorld::new();
    w.register_static(PlacedCollider { shape: cuboid(500, 2000, 2000), center: v(-5000, 0, 0) });
    let corrected = w.resolve(&sphere(1000), &v(0, 0, 0), &v(-3800, 0, 600));
    assert_eq!(corrected, v(-3500, 0, 600));
}

#[test]
fn head_on_wall_clamps_along_z() {
    // A wall ahead on the Z axis: its near face at 4500 stops the sphere
    // center at 3500, and the X motion passes in full.
    let mut w = CollisionWorld::new();
    w.register_static(PlacedCollider { shape: cuboid(2000, 2000, 500), center: v(0, 0, 5000) });
    let corrected = w.resolve(&sphere(1000), &v(0, 0, 0), &v(600, 0, 3800));
    assert_eq!(corrected, v(600, 0, 3500));
}

#[test]
fn resolved_position_never_overlaps_statics() {
    let mut w = wall_world();
    w.register_static(PlacedCollider { shape: cuboid(500, 2000, 2000), center: v(0, 0, 5000) });
    let s = sphere(1000);
    let from = v(0, 0, 0);
    for (px, pz) in [(4400i64, 0i64), (0, 4400), (4400, 4400), (9000, 9000), (-2000, 1000)] {
        let corrected = w.resolve(&s, &from, &v(px, 0, pz));
        assert!(!overlaps(&s, &corrected, &cuboid(500, 2000, 2000), &v(5000, 0, 0)));
        assert!(!overlaps(&s, &corrected, &cuboid(500, 2000, 2000), &v(0, 0, 5000)));
    }
}

#[test]
fn resolving_by_entity_uses_its_registered_collider() {
    let mut w = wall_world();
    w.register_dynamic(3, sphere(1000));
    let corrected = w.resolve_entity(3, &v(0, 0, 0), &v(3800, 0, 0));
    assert_eq!(corrected, v(3500, 0, 0));
}

#[test]
fn entity_without_a_collider_is_non_collidable() {
    // An entity that never got a collider passes through static geometry:
    // its proposed position is returned unchanged.
    let w = wall_world();
    let proposed = v(5000, 0, 0);
    assert_eq!(w.resolve_entity(42, &v(0, 0, 0), &proposed), proposed);
}

#[test]
fn dynamic_contacts_report_overlapping_pairs() {
    let mut w = CollisionWorld::new();
    w.register_dynamic(7, sphere(1000));
    w.register_dynamic(9, sphere(1000));
    let touching = vec![v(0, 0, 0), v(1500, 0, 0)];
    let events = w.dynamic_contacts(&touching);
    assert_eq!(events.len(), 1);
    assert_eq!(events[0].first, 7);
    assert_eq!(events[0].second, 9);
    let apart = vec![v(0, 0, 0), v(5000, 0, 0)];
    assert_eq!(w.dynamic_contacts(&apart).len(), 0);
}
