//! Collision world: static and dynamic convex collidable shapes, queried
//! for overlap, and axis-separated resolution of proposed movement.
//!
//! Overlap is strict: shapes exactly tangent to each other do not overlap,
//! so a resolved position may rest exactly against a wall face. Static
//! colliders are immovable world geometry; the dynamic colliders belong to
//! moving entities, and their mutual contacts are advisory — reported as
//! events, never used to block movement.

use vstd::prelude::*;

use crate::math::dist_sq;
use crate::math::dist_sq_i128;
use crate::math::sq;
use crate::math::spec_clamp;
use crate::math::Axis;
use crate::math::Vec3;
use crate::math::EXTENT_LIMIT;
use crate::math::POS_LIMIT;

verus! {

/// A convex collider shape. Radii and half extents are in subunits.
#[derive(Clone, Copy, Debug, PartialEq, Eq, Structural)]
pub enum Collider {
    Sphere { radius: i64 },
    Cuboid { half: Vec3 },
}

impl Collider {
    /// Radii and half extents are positive and bounded.
    pub open spec fn valid(self) -> bool {
        match self {
            Collider::Sphere { radius } => 0 < radius <= EXTENT_LIMIT,
            Collider::Cuboid { half } => {
                &&& 0 < half.x <= EXTENT_LIMIT
                &&& 0 < half.y <= EXTENT_LIMIT
                &&& 0 < half.z <= EXTENT_LIMIT
            },
        }
    }
}

/// A static collider placed at a fixed world position.
#[derive(Clone, Copy, Debug, PartialEq, Eq, Structural)]
pub struct PlacedCollider {
    pub shape: Collider,
    pub center: Vec3,
}

impl PlacedCollider {
    pub open spec fn valid(self) -> bool {
        &&& self.shape.valid()
        &&& self.center.in_bounds()
    }
}

/// A dynamic collider registered for a moving entity, identified by the
/// entity's id in the world state store.
#[derive(Clone, Copy, Debug, PartialEq, Eq, Structural)]
pub struct DynamicCollider {
    pub entity: usize,
    pub shape: Collider,
}

/// The point of the cuboid `[c - h, c + h]` closest to `p`, one coordinate
/// at a time.
pub open spec fn closest_coord(p: int, c: int, h: int) -> int {
    spec_clamp(p, c - h, c + h)
}

/// Two axis-aligned cuboids overlap when their extents overlap strictly on
/// every axis.
pub open spec fn cuboids_overlap(ca: Vec3, ha: Vec3, cb: Vec3, hb: Vec3) -> bool {
    &&& -(ha.x + hb.x) < ca.x - cb.x < ha.x + hb.x
    &&& -(ha.y + hb.y) < ca.y - cb.y < ha.y + hb.y
    &&& -(ha.z + hb.z) < ca.z - cb.z < ha.z + hb.z
}

/// A sphere and an axis-aligned cuboid overlap when the cuboid's closest
/// point lies strictly within the sphere.
pub open spec fn sphere_cuboid_overlap(ps: Vec3, r: int, c: Vec3, h: Vec3) -> bool {
    sq(ps.x - closest_coord(ps.x as int, c.x as int, h.x as int)) + sq(
        ps.y - closest_coord(ps.y as int, c.y as int, h.y as int),
    ) + sq(ps.z - closest_coord(ps.z as int, c.z as int, h.z as int)) < sq(r)
}

/// Two spheres overlap when their centers are strictly closer than the sum
/// of their radii.
pub open spec fn spheres_overlap(pa: Vec3, ra: int, pb: Vec3, rb: int) -> bool {
    dist_sq(pa, pb) < sq(ra + rb)
}

/// Whether collider `a` placed at `pa` overlaps collider `b` placed at
/// `pb`.
pub open spec fn spec_overlaps(a: Collider, pa: Vec3, b: Collider, pb: Vec3) -> bool {
    match (a, b) {
        (Collider::Sphere { radius: ra }, Collider::Sphere { radius: rb }) => spheres_overlap(
            pa,
            ra as int,
            pb,
            rb as int,
        ),
        (Collider::Sphere { radius: ra }, Collider::Cuboid { half: hb }) => sphere_cuboid_overlap(
            pa,
            ra as int,
            pb,
            hb,
        ),
        (Collider::Cuboid { half: ha }, Collider::Sphere { radius: rb }) => sphere_cuboid_overlap(
            pb,
            rb as int,
            pa,
            ha,
        ),
        (Collider::Cuboid { half: ha }, Collider::Cuboid { half: hb }) => cuboids_overlap(
            pa,
            ha,
            pb,
            hb,
        ),
    }
}

/// The cuboid point closest to `p`, computed coordinate-wise.
fn closest_point(p: &Vec3, c: &Vec3, h: &Vec3) -> (r: Vec3)
    requires
        p.within(2 * POS_LIMIT as int),
        c.within(2 * POS_LIMIT as int),
        h.within(EXTENT_LIMIT as int),
    ensures
        r.x == closest_coord(p.x as int, c.x as int, h.x as int),
        r.y == closest_coord(p.y as int, c.y as int, h.y as int),
        r.z == closest_coord(p.z as int, c.z as int, h.z as int),
        r.within(3 * POS_LIMIT as int),
{
    let x: i64 = if p.x < c.x - h.x {
        c.x - h.x
    } else if p.x > c.x + h.x {
        c.x + h.x
    } else {
        p.x
    };
    let y: i64 = if p.y < c.y - h.y {
        c.y - h.y
    } else if p.y > c.y + h.y {
        c.y + h.y
    } else {
        p.y
    };
    let z: i64 = if p.z < c.z - h.z {
        c.z - h.z
    } else if p.z > c.z + h.z {
        c.z + h.z
    } else {
        p.z
    };
    Vec3 { x, y, z }
}

/// Square a bounded scalar exactly in 128-bit arithmetic.
fn sq_i128(a: i64) -> (r: i128)
    requires
        -4 * POS_LIMIT as int <= a as int <= 4 * POS_LIMIT as int,
    ensures
        r == sq(a as int),
        r >= 0,
{
    proof {
        assert(0 <= (a as int) * (a as int) <= 16_000_000_000_000_000_000) by (nonlinear_arith)
            requires
                -4_000_000_000 <= a as int <= 4_000_000_000,
        ;
    }
    (a as i128) * (a as i128)
}

/// Decide overlap of two placed colliders.
pub fn overlaps(a: &Collider, pa: &Vec3, b: &Collider, pb: &Vec3) -> (r: bool)
    requires
        a.valid(),
        b.valid(),
        pa.within(2 * POS_LIMIT as int),
        pb.within(2 * POS_LIMIT as int),
    ensures
        r == spec_overlaps(*a, *pa, *b, *pb),
{
    match (a, b) {
        (Collider::Sphere { radius: ra }, Collider::Sphere { radius: rb }) => {
            let d2 = dist_sq_i128(pa, pb);
            let rsum = sq_i128(*ra + *rb);
            d2 < rsum
        },
        (Collider::Sphere { radius: ra }, Collider::Cuboid { half: hb }) => {
            overlaps_sphere_cuboid(*ra, pa, pb, hb)
        },
        (Collider::Cuboid { half: ha }, Collider::Sphere { radius: rb }) => {
            overlaps_sphere_cuboid(*rb, pb, pa, ha)
        },
        (Collider::Cuboid { half: ha }, Collider::Cuboid { half: hb }) => {
            let ox = pa.x - pb.x;
            let oy = pa.y - pb.y;
            let oz = pa.z - pb.z;
            -(ha.x + hb.x) < ox && ox < ha.x + hb.x && -(ha.y + hb.y) < oy && oy < ha.y + hb.y
                && -(ha.z + hb.z) < oz && oz < ha.z + hb.z
        },
    }
}

/// Decide overlap of a sphere at `ps` with a cuboid of half extents `h`
/// centered at `c`.
fn overlaps_sphere_cuboid(r: i64, ps: &Vec3, c: &Vec3, h: &Vec3) -> (res: bool)
    requires
        0 < r <= EXTENT_LIMIT,
        ps.within(2 * POS_LIMIT as int),
        c.within(2 * POS_LIMIT as int),
        h.within(EXTENT_LIMIT as int),
    ensures
        res == sphere_cuboid_overlap(*ps, r as int, *c, *h),
{
    let q = closest_point(ps, c, h);
    let d2 = dist_sq_i128(ps, &q);
    let r2 = sq_i128(r);
    d2 < r2
}

/// The static and dynamic collidable shapes of the world.
#[derive(Debug)]
pub struct CollisionWorld {
    pub statics: Vec<PlacedCollider>,
    pub dynamics: Vec<DynamicCollider>,
}

impl CollisionWorld {
    /// Every registered collider is valid.
    pub open spec fn wf(self) -> bool {
        &&& forall|i: int| 0 <= i < self.statics@.len() ==> (#[trigger] self.statics@[i]).valid()
        &&& forall|i: int|
            0 <= i < self.dynamics@.len() ==> (#[trigger] self.dynamics@[i]).shape.valid()
    }

    /// `shape` placed at `pos` overlaps no registered static collider.
    pub open spec fn pos_free(self, shape: Collider, pos: Vec3) -> bool {
        forall|i: int|
            0 <= i < self.statics@.len() ==> !spec_overlaps(
                shape,
                pos,
                (#[trigger] self.statics@[i]).shape,
                self.statics@[i].center,
            )
    }

    /// An empty collision world.
    pub fn new() -> (r: CollisionWorld)
        ensures
            r.statics@ =~= Seq::<PlacedCollider>::empty(),
            r.dynamics@ =~= Seq::<DynamicCollider>::empty(),
            r.wf(),
    {
        CollisionWorld { statics: Vec::new(), dynamics: Vec::new() }
    }

    /// Register an immovable world-geometry collider.
    pub fn register_static(&mut self, placed: PlacedCollider)
        requires
            old(self).wf(),
            placed.valid(),
        ensures
            final(self).statics@ == old(self).statics@.push(placed),
            final(self).dynamics@ == old(self).dynamics@,
            final(self).wf(),
    {
        self.statics.push(placed);
    }

    /// Register the collider of a moving entity.
    pub fn register_dynamic(&mut self, entity: usize, shape: Collider)
        requires
            old(self).wf(),
            shape.valid(),
        ensures
            final(self).dynamics@ == old(self).dynamics@.push(
                DynamicCollider { entity, shape },
            ),
            final(self).statics@ == old(self).statics@,
            final(self).wf(),
    {
        self.dynamics.push(DynamicCollider { entity, shape });
    }

    /// Decide whether `shape` at `pos` is clear of all static geometry.
    pub fn is_free(&self, shape: &Collider, pos: &Vec3) -> (r: bool)
        requires
            self.wf(),
            shape.valid(),
            pos.within(2 * POS_LIMIT as int),
        ensures
            r == self.pos_free(*shape, *pos),
    {
        let mut i: usize = 0;
        while i < self.statics.len()
            invariant
                0 <= i <= self.statics@.len(),
                self.wf(),
                shape.valid(),
                pos.within(2 * POS_LIMIT as int),
                forall|j: int|
                    0 <= j < i ==> !spec_overlaps(
                        *shape,
                        *pos,
                        (#[trigger] self.statics@[j]).shape,
                        self.statics@[j].center,
                    ),
            decreases self.statics@.len() - i,
        {
            let s = &self.statics[i];
            if overlaps(shape, pos, &s.shape, &s.center) {
                return false;
            }
            i = i + 1;
        }
        true
    }
}

/// The coordinate on the movement axis that places an approaching shape of
/// face-to-face reach `reach` exactly tangent to a static collider centered
/// at `sc` on that axis: against the near face for movement in the positive
/// direction, against the far face otherwise.
pub open spec fn tangent_coord(sc: int, reach: int, dir_pos: bool) -> int {
    if dir_pos {
        sc - reach
    } else {
        sc + reach
    }
}

/// `pos` lies within the cuboid slab `[c - h, c + h]` on both axes other
/// than `axis`.
pub open spec fn other_axes_in_slab(pos: Vec3, axis: Axis, c: Vec3, h: Vec3) -> bool {
    match axis {
        Axis::X => c.y - h.y <= pos.y <= c.y + h.y && c.z - h.z <= pos.z <= c.z + h.z,
        Axis::Y => c.x - h.x <= pos.x <= c.x + h.x && c.z - h.z <= pos.z <= c.z + h.z,
        Axis::Z => c.x - h.x <= pos.x <= c.x + h.x && c.y - h.y <= pos.y <= c.y + h.y,
    }
}

/// `pos` and `c` agree on both axes other than `axis`.
pub open spec fn other_axes_equal(pos: Vec3, axis: Axis, c: Vec3) -> bool {
    match axis {
        Axis::X => pos.y == c.y && pos.z == c.z,
        Axis::Y => pos.x == c.x && pos.z == c.z,
        Axis::Z => pos.x == c.x && pos.y == c.y,
    }
}

/// `c` lies within the slab of half extents `h` around `pos` on both axes
/// other than `axis`.
pub open spec fn center_in_slab(pos: Vec3, axis: Axis, c: Vec3, h: Vec3) -> bool {
    match axis {
        Axis::X => pos.y - h.y <= c.y <= pos.y + h.y && pos.z - h.z <= c.z <= pos.z + h.z,
        Axis::Y => pos.x - h.x <= c.x <= pos.x + h.x && pos.z - h.z <= c.z <= pos.z + h.z,
        Axis::Z => pos.x - h.x <= c.x <= pos.x + h.x && pos.y - h.y <= c.y <= pos.y + h.y,
    }
}

/// The axis coordinate placing shape `d`, whose off-axis coordinates are
/// those of `pos`, exactly tangent to static collider `s` when approaching
/// along `axis` — when that tangency is exact in fixed-point coordinates.
/// `None` when it is not (a corner or oblique approach, where the tangent
/// point is irrational).
pub open spec fn face_tangent(
    d: Collider,
    pos: Vec3,
    axis: Axis,
    dir_pos: bool,
    s: PlacedCollider,
) -> Option<int> {
    let sc = s.center.spec_axis(axis) as int;
    match (d, s.shape) {
        (Collider::Cuboid { half: hd }, Collider::Cuboid { half: hs }) => Option::Some(
            tangent_coord(sc, hs.spec_axis(axis) + hd.spec_axis(axis), dir_pos),
        ),
        (Collider::Sphere { radius: r }, Collider::Cuboid { half: hs }) => if other_axes_in_slab(
            pos,
            axis,
            s.center,
            hs,
        ) {
            Option::Some(tangent_coord(sc, hs.spec_axis(axis) + r, dir_pos))
        } else {
            Option::None
        },
        (Collider::Sphere { radius: r }, Collider::Sphere { radius: rs }) => if other_axes_equal(
            pos,
            axis,
            s.center,
        ) {
            Option::Some(tangent_coord(sc, r + rs, dir_pos))
        } else {
            Option::None
        },
        (Collider::Cuboid { half: hd }, Collider::Sphere { radius: rs }) => if center_in_slab(
            pos,
            axis,
            s.center,
            hd,
        ) {
            Option::Some(tangent_coord(sc, rs + hd.spec_axis(axis), dir_pos))
        } else {
            Option::None
        },
    }
}

/// One pull-back step of axis-separated resolution: the candidate axis
/// coordinate `c` collided with static collider `s`, and is replaced by the
/// exact face tangent when one exists between the old coordinate and the
/// target, and by the old (known clear) coordinate otherwise.
pub open spec fn pullback_step(
    d: Collider,
    pos: Vec3,
    axis: Axis,
    target: int,
    s: PlacedCollider,
) -> int {
    let oldc = pos.spec_axis(axis) as int;
    let lo = if oldc <= target {
        oldc
    } else {
        target
    };
    let hi = if oldc <= target {
        target
    } else {
        oldc
    };
    match face_tangent(d, pos, axis, oldc <= target, s) {
        Option::Some(t) => if lo <= t <= hi {
            t
        } else {
            oldc
        },
        Option::None => oldc,
    }
}

/// The candidate axis coordinate after testing the first `n` static
/// colliders in registration order: starts at the target and is pulled back
/// by each collider found overlapping the current candidate.
pub open spec fn pullback(
    statics: Seq<PlacedCollider>,
    d: Collider,
    pos: Vec3,
    axis: Axis,
    target: int,
    n: nat,
) -> int
    decreases n,
{
    if n == 0 {
        target
    } else {
        let c = pullback(statics, d, pos, axis, target, (n - 1) as nat);
        if spec_overlaps(d, pos.spec_with_axis(axis, c as i64), statics[n - 1].shape, statics[n - 1].center) {
            pullback_step(d, pos, axis, target, statics[n - 1])
        } else {
            c
        }
    }
}

/// The candidate stays between the old coordinate and the target.
pub proof fn lemma_pullback_in_range(
    statics: Seq<PlacedCollider>,
    d: Collider,
    pos: Vec3,
    axis: Axis,
    target: int,
    n: nat,
)
    ensures
        ({
            let oldc = pos.spec_axis(axis) as int;
            let lo = if oldc <= target {
                oldc
            } else {
                target
            };
            let hi = if oldc <= target {
                target
            } else {
                oldc
            };
            lo <= pullback(statics, d, pos, axis, target, n) <= hi
        }),
    decreases n,
{
    if n > 0 {
        lemma_pullback_in_range(statics, d, pos, axis, target, (n - 1) as nat);
    }
}

/// A target the shape is already clear at is never pulled back.
pub proof fn lemma_pullback_fixes_free_target(
    w: CollisionWorld,
    d: Collider,
    pos: Vec3,
    axis: Axis,
    target: int,
    n: nat,
)
    requires
        n <= w.statics@.len(),
        w.pos_free(d, pos.spec_with_axis(axis, target as i64)),
        -POS_LIMIT <= target <= POS_LIMIT,
    ensures
        pullback(w.statics@, d, pos, axis, target, n) == target,
    decreases n,
{
    if n > 0 {
        lemma_pullback_fixes_free_target(w, d, pos, axis, target, (n - 1) as nat);
    }
}

impl CollisionWorld {
    /// The corrected axis coordinate of axis-separated resolution, as a
    /// function of the world's static colliders: the pulled-back candidate
    /// when it ends up clear, and the old (known clear) coordinate
    /// otherwise.
    pub open spec fn spec_resolve_axis(
        self,
        shape: Collider,
        pos: Vec3,
        axis: Axis,
        target: i64,
    ) -> i64 {
        let c = pullback(self.statics@, shape, pos, axis, target as int, self.statics@.len());
        if self.pos_free(shape, pos.spec_with_axis(axis, c as i64)) {
            c as i64
        } else {
            pos.spec_axis(axis)
        }
    }

    /// Resolve the movement of `shape` along one axis: from the clear
    /// position `pos`, the entity attempts to move the `axis` coordinate to
    /// `target`. The result is clear of all static geometry, equals the
    /// target whenever the target is already clear, and never overshoots
    /// the attempted movement on either side.
    pub fn resolve_axis(&self, shape: &Collider, pos: &Vec3, axis: Axis, target: i64) -> (r: i64)
        requires
            self.wf(),
            shape.valid(),
            pos.in_bounds(),
            -POS_LIMIT <= target <= POS_LIMIT,
            self.pos_free(*shape, *pos),
        ensures
            r == self.spec_resolve_axis(*shape, *pos, axis, target),
            self.pos_free(*shape, pos.spec_with_axis(axis, r)),
            self.pos_free(*shape, pos.spec_with_axis(axis, target)) ==> r == target,
            pos.spec_axis(axis) <= target ==> pos.spec_axis(axis) <= r <= target,
            target <= pos.spec_axis(axis) ==> target <= r <= pos.spec_axis(axis),
    {
        let oldc = pos.axis_value(axis);
        let lo: i64 = if oldc <= target {
            oldc
        } else {
            target
        };
        let hi: i64 = if oldc <= target {
            target
        } else {
            oldc
        };
        let mut c: i64 = target;
        let mut i: usize = 0;
        while i < self.statics.len()
            invariant
                0 <= i <= self.statics@.len(),
                self.wf(),
                shape.valid(),
                pos.in_bounds(),
                -POS_LIMIT <= target <= POS_LIMIT,
                oldc == pos.spec_axis(axis),
                lo == (if oldc <= target {
                    oldc
                } else {
                    target
                }),
                hi == (if oldc <= target {
                    target
                } else {
                    oldc
                }),
                lo <= c <= hi,
                c as int == pullback(self.statics@, *shape, *pos, axis, target as int, i as nat),
            decreases self.statics@.len() - i,
        {
            let s = self.statics[i];
            let cand = pos.with_axis(axis, c);
            if overlaps(shape, &cand, &s.shape, &s.center) {
                c = exec_pullback_step(shape, pos, axis, target, &s);
            }
            i = i + 1;
        }
        proof {
            if self.pos_free(*shape, pos.spec_with_axis(axis, target)) {
                lemma_pullback_fixes_free_target(
                    *self,
                    *shape,
                    *pos,
                    axis,
                    target as int,
                    self.statics@.len(),
                );
            }
        }
        let chosen = pos.with_axis(axis, c);
        if self.is_free(shape, &chosen) {
            c
        } else {
            proof {
                crate::math::lemma_with_axis_self(*pos, axis);
            }
            oldc
        }
    }
}

impl CollisionWorld {
    /// The corrected position of full axis-separated resolution. A proposed
    /// position that is already clear is returned unchanged; otherwise
    /// movement is resolved one axis at a time in direction-major order (X,
    /// then Z, then the vertical axis), each axis tested and clamped
    /// independently — this is what prevents diagonal wall clipping.
    pub open spec fn spec_resolve(self, shape: Collider, pos: Vec3, proposed: Vec3) -> Vec3 {
        if self.pos_free(shape, proposed) {
            proposed
        } else {
            let x = self.spec_resolve_axis(shape, pos, Axis::X, proposed.x);
            let p1 = pos.spec_with_axis(Axis::X, x);
            let z = self.spec_resolve_axis(shape, p1, Axis::Z, proposed.z);
            let p2 = p1.spec_with_axis(Axis::Z, z);
            let y = self.spec_resolve_axis(shape, p2, Axis::Y, proposed.y);
            p2.spec_with_axis(Axis::Y, y)
        }
    }

    /// Resolve a proposed movement of the dynamic shape `shape` from the
    /// clear position `pos` to `proposed` against all static geometry.
    pub fn resolve(&self, shape: &Collider, pos: &Vec3, proposed: &Vec3) -> (r: Vec3)
        requires
            self.wf(),
            shape.valid(),
            pos.in_bounds(),
            proposed.in_bounds(),
            self.pos_free(*shape, *pos),
        ensures
            r == self.spec_resolve(*shape, *pos, *proposed),
            self.pos_free(*shape, r),
            self.pos_free(*shape, *proposed) ==> r == proposed,
            r.in_bounds(),
    {
        if self.is_free(shape, proposed) {
            return *proposed;
        }
        let x = self.resolve_axis(shape, pos, Axis::X, proposed.x);
        let p1 = pos.with_axis(Axis::X, x);
        let z = self.resolve_axis(shape, &p1, Axis::Z, proposed.z);
        let p2 = p1.with_axis(Axis::Z, z);
        let y = self.resolve_axis(shape, &p2, Axis::Y, proposed.y);
        p2.with_axis(Axis::Y, y)
    }
}

impl CollisionWorld {
    /// The registered collider of dynamic entity `entity`, searching the
    /// registration order from slot `k` on.
    pub open spec fn dynamic_shape_from(self, entity: usize, k: nat) -> Option<Collider>
        decreases self.dynamics@.len() - k,
    {
        if k >= self.dynamics@.len() {
            Option::None
        } else if self.dynamics@[k as int].entity == entity {
            Option::Some(self.dynamics@[k as int].shape)
        } else {
            self.dynamic_shape_from(entity, k + 1)
        }
    }

    /// The registered collider of dynamic entity `entity`, if any.
    pub open spec fn spec_dynamic_shape(self, entity: usize) -> Option<Collider> {
        self.dynamic_shape_from(entity, 0)
    }

    /// Resolve a proposed movement of the dynamic entity `entity` from the
    /// clear position `pos` to `proposed`. An entity registered with no
    /// collider is treated as non-collidable: its proposed position passes
    /// through unchanged.
    pub fn resolve_entity(&self, entity: usize, pos: &Vec3, proposed: &Vec3) -> (r: Vec3)
        requires
            self.wf(),
            pos.in_bounds(),
            proposed.in_bounds(),
            match self.spec_dynamic_shape(entity) {
                Option::Some(shape) => self.pos_free(shape, *pos),
                Option::None => true,
            },
        ensures
            match self.spec_dynamic_shape(entity) {
                Option::Some(shape) => {
                    &&& r == self.spec_resolve(shape, *pos, *proposed)
                    &&& self.pos_free(shape, r)
                    &&& (self.pos_free(shape, *proposed) ==> r == proposed)
                },
                Option::None => r == proposed,
            },
            r.in_bounds(),
    {
        let mut i: usize = 0;
        while i < self.dynamics.len()
            invariant
                0 <= i <= self.dynamics@.len(),
                self.wf(),
                pos.in_bounds(),
                proposed.in_bounds(),
                self.spec_dynamic_shape(entity) == self.dynamic_shape_from(entity, i as nat),
                match self.spec_dynamic_shape(entity) {
                    Option::Some(shape) => self.pos_free(shape, *pos),
                    Option::None => true,
                },
            decreases self.dynamics@.len() - i,
        {
            if self.dynamics[i].entity == entity {
                let shape = self.dynamics[i].shape;
                return self.resolve(&shape, pos, proposed);
            }
            i = i + 1;
        }
        *proposed
    }
}

/// Resolving an already-clear proposed position returns it unchanged.
pub proof fn lemma_resolve_idempotent(
    w: CollisionWorld,
    shape: Collider,
    pos: Vec3,
    proposed: Vec3,
)
    requires
        w.pos_free(shape, proposed),
    ensures
        w.spec_resolve(shape, pos, proposed) == proposed,
{
}

/// The corrected coordinate of one axis leaves the shape clear of every
/// static collider, provided the position it started from was clear.
pub proof fn lemma_resolve_axis_free(
    w: CollisionWorld,
    shape: Collider,
    pos: Vec3,
    axis: Axis,
    target: i64,
)
    requires
        w.pos_free(shape, pos),
    ensures
        w.pos_free(shape, pos.spec_with_axis(axis, w.spec_resolve_axis(shape, pos, axis, target))),
{
    if !w.pos_free(
        shape,
        pos.spec_with_axis(
            axis,
            pullback(w.statics@, shape, pos, axis, target as int, w.statics@.len()) as i64,
        ),
    ) {
        crate::math::lemma_with_axis_self(pos, axis);
    }
}

/// The corrected coordinate of one axis lies between the old coordinate
/// and the target: axis resolution never overshoots the attempted
/// movement on either side.
pub proof fn lemma_resolve_axis_between(
    w: CollisionWorld,
    shape: Collider,
    pos: Vec3,
    axis: Axis,
    target: i64,
)
    ensures
        ({
            let r = w.spec_resolve_axis(shape, pos, axis, target);
            let oldc = pos.spec_axis(axis);
            &&& (oldc <= target ==> oldc <= r <= target)
            &&& (target <= oldc ==> target <= r <= oldc)
        }),
{
    lemma_pullback_in_range(w.statics@, shape, pos, axis, target as int, w.statics@.len());
}

/// Collision resolution never moves a coordinate past the attempted
/// movement on any axis: each coordinate of the corrected position lies
/// between the starting position's and the proposed position's.
pub proof fn lemma_resolve_never_overshoots(
    w: CollisionWorld,
    shape: Collider,
    pos: Vec3,
    proposed: Vec3,
)
    ensures
        ({
            let r = w.spec_resolve(shape, pos, proposed);
            &&& (pos.x <= proposed.x ==> pos.x <= r.x <= proposed.x)
            &&& (proposed.x <= pos.x ==> proposed.x <= r.x <= pos.x)
            &&& (pos.y <= proposed.y ==> pos.y <= r.y <= proposed.y)
            &&& (proposed.y <= pos.y ==> proposed.y <= r.y <= pos.y)
            &&& (pos.z <= proposed.z ==> pos.z <= r.z <= proposed.z)
            &&& (proposed.z <= pos.z ==> proposed.z <= r.z <= pos.z)
        }),
{
    if !w.pos_free(shape, proposed) {
        let p1 = pos.spec_with_axis(Axis::X, w.spec_resolve_axis(shape, pos, Axis::X, proposed.x));
        let p2 = p1.spec_with_axis(Axis::Z, w.spec_resolve_axis(shape, p1, Axis::Z, proposed.z));
        lemma_resolve_axis_between(w, shape, pos, Axis::X, proposed.x);
        lemma_resolve_axis_between(w, shape, p1, Axis::Z, proposed.z);
        lemma_resolve_axis_between(w, shape, p2, Axis::Y, proposed.y);
    }
}

/// Collision resolution never returns a position whose collider overlaps a
/// static collider: from any clear starting position, the resolved position
/// is clear for every convex collider pair.
pub proof fn lemma_resolve_never_overlaps(
    w: CollisionWorld,
    shape: Collider,
    pos: Vec3,
    proposed: Vec3,
)
    requires
        w.pos_free(shape, pos),
    ensures
        w.pos_free(shape, w.spec_resolve(shape, pos, proposed)),
{
    if !w.pos_free(shape, proposed) {
        let x = w.spec_resolve_axis(shape, pos, Axis::X, proposed.x);
        let p1 = pos.spec_with_axis(Axis::X, x);
        lemma_resolve_axis_free(w, shape, pos, Axis::X, proposed.x);
        let z = w.spec_resolve_axis(shape, p1, Axis::Z, proposed.z);
        let p2 = p1.spec_with_axis(Axis::Z, z);
        lemma_resolve_axis_free(w, shape, p1, Axis::Z, proposed.z);
        lemma_resolve_axis_free(w, shape, p2, Axis::Y, proposed.y);
    }
}

/// Replacing the coordinate on `axis` neither reads nor changes the other
/// two, so membership of the off-axis coordinates in a cuboid's slab is
/// untouched, and the replaced coordinate reads back.
pub proof fn lemma_with_axis_keeps_slab(pos: Vec3, axis: Axis, val: i64, c: Vec3, h: Vec3)
    ensures
        pos.spec_with_axis(axis, val).spec_axis(axis) == val,
        other_axes_in_slab(pos.spec_with_axis(axis, val), axis, c, h) == other_axes_in_slab(
            pos,
            axis,
            c,
            h,
        ),
{
    match axis {
        Axis::X => {
        },
        Axis::Y => {
        },
        Axis::Z => {
        },
    }
}

/// For a sphere whose off-axis coordinates lie within a cuboid's slab, the
/// off-axis offsets to the closest point vanish, and overlap is decided by
/// the clearance on `axis` alone.
pub proof fn lemma_sphere_slab_overlap_on_axis(ps: Vec3, r: int, c: Vec3, h: Vec3, axis: Axis)
    requires
        other_axes_in_slab(ps, axis, c, h),
    ensures
        sphere_cuboid_overlap(ps, r, c, h) == (sq(
            ps.spec_axis(axis) - closest_coord(
                ps.spec_axis(axis) as int,
                c.spec_axis(axis) as int,
                h.spec_axis(axis) as int,
            ),
        ) < sq(r)),
{
    match axis {
        Axis::X => {
            assert(closest_coord(ps.y as int, c.y as int, h.y as int) == ps.y);
            assert(closest_coord(ps.z as int, c.z as int, h.z as int) == ps.z);
        },
        Axis::Y => {
            assert(closest_coord(ps.x as int, c.x as int, h.x as int) == ps.x);
            assert(closest_coord(ps.z as int, c.z as int, h.z as int) == ps.z);
        },
        Axis::Z => {
            assert(closest_coord(ps.x as int, c.x as int, h.x as int) == ps.x);
            assert(closest_coord(ps.y as int, c.y as int, h.y as int) == ps.y);
        },
    }
}

/// A sphere approaching a single static cuboid wall head-on along any axis
/// and in either direction — its off-axis coordinates within the wall's
/// face region, its proposed coordinate overlapping the wall — is
/// corrected to the position exactly tangent to the wall face it
/// approaches: the sphere's center comes to rest one radius before that
/// face.
pub proof fn lemma_head_on_wall_tangency(
    w: CollisionWorld,
    r: i64,
    pos: Vec3,
    target: i64,
    wall: PlacedCollider,
    axis: Axis,
)
    requires
        w.statics@ == seq![wall],
        wall.shape matches Collider::Cuboid { half } && wall.valid(),
        0 < r <= EXTENT_LIMIT,
        pos.in_bounds(),
        -POS_LIMIT <= target <= POS_LIMIT,
        other_axes_in_slab(pos, axis, wall.center, wall.shape->Cuboid_half),
        pos.spec_axis(axis) <= target ==> pos.spec_axis(axis) < wall.center.spec_axis(axis)
            - wall.shape->Cuboid_half.spec_axis(axis),
        target < pos.spec_axis(axis) ==> pos.spec_axis(axis) > wall.center.spec_axis(axis)
            + wall.shape->Cuboid_half.spec_axis(axis),
        w.pos_free(Collider::Sphere { radius: r }, pos),
        spec_overlaps(
            Collider::Sphere { radius: r },
            pos.spec_with_axis(axis, target),
            wall.shape,
            wall.center,
        ),
    ensures
        pos.spec_axis(axis) <= target ==> w.spec_resolve_axis(
            Collider::Sphere { radius: r },
            pos,
            axis,
            target,
        ) == wall.center.spec_axis(axis) - wall.shape->Cuboid_half.spec_axis(axis) - r,
        target < pos.spec_axis(axis) ==> w.spec_resolve_axis(
            Collider::Sphere { radius: r },
            pos,
            axis,
            target,
        ) == wall.center.spec_axis(axis) + wall.shape->Cuboid_half.spec_axis(axis) + r,
{
    let sphere = Collider::Sphere { radius: r };
    let half = wall.shape->Cuboid_half;
    let oldc = pos.spec_axis(axis) as int;
    let sc = wall.center.spec_axis(axis) as int;
    let hh = half.spec_axis(axis) as int;
    let near = sc - hh;
    let far = sc + hh;
    let dir_pos = oldc <= target;
    let t: int = if dir_pos {
        near - r
    } else {
        far + r
    };
    assert(w.statics@[0] == wall);
    assert(!spec_overlaps(sphere, pos, wall.shape, wall.center));
    assert(-POS_LIMIT <= sc <= POS_LIMIT && 0 < hh <= EXTENT_LIMIT);
    // At `pos` the closest point offset is purely on `axis`, so the
    // clearance there is at least the radius: the start sits at least one
    // radius outside the face it approaches.
    lemma_sphere_slab_overlap_on_axis(pos, r as int, wall.center, half, axis);
    if dir_pos {
        assert(closest_coord(oldc, sc, hh) == near);
        assert(sq(oldc - near) >= sq(r as int));
        assert(oldc <= near - r) by (nonlinear_arith)
            requires
                sq(oldc - near) >= sq(r as int),
                oldc < near,
                r > 0,
        ;
    } else {
        assert(closest_coord(oldc, sc, hh) == far);
        assert(sq(oldc - far) >= sq(r as int));
        assert(oldc >= far + r) by (nonlinear_arith)
            requires
                sq(oldc - far) >= sq(r as int),
                oldc > far,
                r > 0,
        ;
    }
    // At the overlapping target the clearance is under the radius, so the
    // tangent coordinate lies strictly between the start and the target.
    let tv = pos.spec_with_axis(axis, target);
    lemma_with_axis_keeps_slab(pos, axis, target, wall.center, half);
    lemma_sphere_slab_overlap_on_axis(tv, r as int, wall.center, half, axis);
    if dir_pos {
        if target < near {
            assert(closest_coord(target as int, sc, hh) == near);
            assert(sq(target - near) < sq(r as int));
            assert(near - target < r) by (nonlinear_arith)
                requires
                    sq(target - near) < sq(r as int),
                    target < near,
                    r > 0,
            ;
        }
        assert(oldc <= t < target);
    } else {
        if target > far {
            assert(closest_coord(target as int, sc, hh) == far);
            assert(sq(target - far) < sq(r as int));
            assert(target - far < r) by (nonlinear_arith)
                requires
                    sq(target - far) < sq(r as int),
                    target > far,
                    r > 0,
            ;
        }
        assert(target < t <= oldc);
    }
    // The pull-back against the single wall lands exactly on the tangent.
    let c0 = pullback(w.statics@, sphere, pos, axis, target as int, 0);
    assert(c0 == target);
    assert(pos.spec_with_axis(axis, c0 as i64) == tv);
    assert(spec_overlaps(sphere, pos.spec_with_axis(axis, c0 as i64), wall.shape, wall.center));
    let c1 = pullback(w.statics@, sphere, pos, axis, target as int, 1);
    assert(face_tangent(sphere, pos, axis, dir_pos, wall) == Option::Some(t));
    assert(c1 == t);
    // The tangent position is clear: the closest point sits exactly one
    // radius away.
    let tp = pos.spec_with_axis(axis, t as i64);
    lemma_with_axis_keeps_slab(pos, axis, t as i64, wall.center, half);
    lemma_sphere_slab_overlap_on_axis(tp, r as int, wall.center, half, axis);
    assert(tp.spec_axis(axis) == t);
    if dir_pos {
        assert(closest_coord(t, sc, hh) == near);
        assert(sq(t - near) == sq(r as int)) by (nonlinear_arith)
            requires
                t == near - r,
        ;
    } else {
        assert(closest_coord(t, sc, hh) == far);
        assert(sq(t - far) == sq(r as int)) by (nonlinear_arith)
            requires
                t == far + r,
        ;
    }
    assert(!spec_overlaps(sphere, tp, wall.shape, wall.center));
    assert(w.pos_free(sphere, tp));
}

/// An advisory contact between two dynamic entities, reported by entity id.
/// Contacts never block movement: there is exactly one controllable dynamic
/// entity in the current design, so a dynamic pair can only be informational.
#[derive(Clone, Copy, Debug, PartialEq, Eq, Structural)]
pub struct ContactEvent {
    pub first: usize,
    pub second: usize,
}

impl CollisionWorld {
    /// The dynamic colliders at slots `i` and `j`, placed at the given
    /// positions, overlap.
    pub open spec fn dynamic_pair_overlaps(self, positions: Seq<Vec3>, i: int, j: int) -> bool {
        spec_overlaps(
            self.dynamics@[i].shape,
            positions[i],
            self.dynamics@[j].shape,
            positions[j],
        )
    }

    /// The contact event reporting the dynamic pair `(i, j)`.
    pub open spec fn pair_event(self, i: int, j: int) -> ContactEvent {
        ContactEvent { first: self.dynamics@[i].entity, second: self.dynamics@[j].entity }
    }

    /// `ev` reports some overlapping distinct dynamic pair.
    pub open spec fn is_overlap_event(self, positions: Seq<Vec3>, ev: ContactEvent) -> bool {
        exists|p: int, q: int|
            0 <= p < q < self.dynamics@.len() && ev == self.pair_event(p, q)
                && self.dynamic_pair_overlaps(positions, p, q)
    }

    /// The pair `(p, q)` appears in the event report `events`.
    pub open spec fn event_reported(self, events: Seq<ContactEvent>, p: int, q: int) -> bool {
        exists|k: int| 0 <= k < events.len() && events[k] == self.pair_event(p, q)
    }

    /// Report every overlapping pair of dynamic colliders, given the current
    /// position of each (parallel to `dynamics`, in registration order).
    /// The report is advisory: exactly the overlapping distinct pairs appear
    /// in it, and nothing is moved.
    pub fn dynamic_contacts(&self, positions: &Vec<Vec3>) -> (r: Vec<ContactEvent>)
        requires
            self.wf(),
            positions@.len() == self.dynamics@.len(),
            forall|i: int| 0 <= i < positions@.len() ==> (#[trigger] positions@[i]).in_bounds(),
        ensures
            forall|k: int| 0 <= k < r@.len() ==> self.is_overlap_event(positions@, #[trigger] r@[k]),
            forall|i: int, j: int|
                0 <= i < j < self.dynamics@.len() && #[trigger] self.dynamic_pair_overlaps(
                    positions@,
                    i,
                    j,
                ) ==> self.event_reported(r@, i, j),
    {
        let mut r: Vec<ContactEvent> = Vec::new();
        let n = self.dynamics.len();
        let mut i: usize = 0;
        while i < n
            invariant
                0 <= i <= n,
                n == self.dynamics@.len(),
                self.wf(),
                positions@.len() == n,
                forall|p: int| 0 <= p < n ==> (#[trigger] positions@[p]).in_bounds(),
                forall|k: int|
                    0 <= k < r@.len() ==> self.is_overlap_event(positions@, #[trigger] r@[k]),
                forall|p: int, q: int|
                    0 <= p < q < n && p < i && #[trigger] self.dynamic_pair_overlaps(
                        positions@,
                        p,
                        q,
                    ) ==> self.event_reported(r@, p, q),
            decreases n - i,
        {
            let mut j: usize = i + 1;
            while j < n
                invariant
                    0 <= i < j <= n || (i + 1 == j && j <= n),
                    i < n,
                    n == self.dynamics@.len(),
                    self.wf(),
                    positions@.len() == n,
                    forall|p: int| 0 <= p < n ==> (#[trigger] positions@[p]).in_bounds(),
                    forall|k: int|
                        0 <= k < r@.len() ==> self.is_overlap_event(positions@, #[trigger] r@[k]),
                    forall|p: int, q: int|
                        0 <= p < q < n && (p < i || (p == i && q < j))
                            && #[trigger] self.dynamic_pair_overlaps(positions@, p, q)
                            ==> self.event_reported(r@, p, q),
                decreases n - j,
            {
                let a = &self.dynamics[i];
                let b = &self.dynamics[j];
                if overlaps(&a.shape, &positions[i], &b.shape, &positions[j]) {
                    let ev = ContactEvent { first: a.entity, second: b.entity };
                    let ghost r0 = r@;
                    r.push(ev);
                    proof {
                        assert(r@ == r0.push(ev));
                        assert(ev == self.pair_event(i as int, j as int));
                        assert(self.dynamic_pair_overlaps(positions@, i as int, j as int));
                        assert(self.is_overlap_event(positions@, ev));
                        assert forall|k: int| 0 <= k < r@.len() implies self.is_overlap_event(
                            positions@,
                            #[trigger] r@[k],
                        ) by {
                            if k < r0.len() {
                                assert(r@[k] == r0[k]);
                            } else {
                                assert(r@[k] == ev);
                            }
                        };
                        let w = r0.len() as int;
                        assert(r@[w] == self.pair_event(i as int, j as int));
                        assert(self.event_reported(r@, i as int, j as int));
                        assert forall|p: int, q: int|
                            0 <= p < q < n && (p < i || (p == i && q < j + 1))
                                && #[trigger] self.dynamic_pair_overlaps(positions@, p, q) implies self.event_reported(
                            r@,
                            p,
                            q,
                        ) by {
                            if p == i as int && q == j as int {
                            } else {
                                assert(self.event_reported(r0, p, q));
                                let k = choose|k: int|
                                    0 <= k < r0.len() && #[trigger] r0[k] == self.pair_event(p, q);
                                assert(r@[k] == self.pair_event(p, q));
                                assert(self.event_reported(r@, p, q));
                            }
                        };
                    }
                }
                j = j + 1;
            }
            i = i + 1;
        }
        r
    }
}

/// One executable pull-back step; mirrors `pullback_step`.
fn exec_pullback_step(d: &Collider, pos: &Vec3, axis: Axis, target: i64, s: &PlacedCollider) -> (r:
    i64)
    requires
        d.valid(),
        s.valid(),
        pos.in_bounds(),
        -POS_LIMIT <= target <= POS_LIMIT,
    ensures
        r as int == pullback_step(*d, *pos, axis, target as int, *s),
        ({
            let oldc = pos.spec_axis(axis);
            &&& (oldc <= target ==> oldc <= r <= target)
            &&& (target <= oldc ==> target <= r <= oldc)
        }),
{
    let oldc = pos.axis_value(axis);
    let lo: i64 = if oldc <= target {
        oldc
    } else {
        target
    };
    let hi: i64 = if oldc <= target {
        target
    } else {
        oldc
    };
    let dir_pos = oldc <= target;
    let sc = s.center.axis_value(axis);
    let tangent: Option<i64> = match (d, &s.shape) {
        (Collider::Cuboid { half: hd }, Collider::Cuboid { half: hs }) => {
            let reach = hs.axis_value(axis) + hd.axis_value(axis);
            Option::Some(if dir_pos {
                sc - reach
            } else {
                sc + reach
            })
        },
        (Collider::Sphere { radius: r }, Collider::Cuboid { half: hs }) => {
            if in_slab_other_axes(pos, axis, &s.center, hs) {
                let reach = hs.axis_value(axis) + *r;
                Option::Some(if dir_pos {
                    sc - reach
                } else {
                    sc + reach
                })
            } else {
                Option::None
            }
        },
        (Collider::Sphere { radius: r }, Collider::Sphere { radius: rs }) => {
            if equal_other_axes(pos, axis, &s.center) {
                let reach = *r + *rs;
                Option::Some(if dir_pos {
                    sc - reach
                } else {
                    sc + reach
                })
            } else {
                Option::None
            }
        },
        (Collider::Cuboid { half: hd }, Collider::Sphere { radius: rs }) => {
            if slab_contains_center(pos, axis, &s.center, hd) {
                let reach = *rs + hd.axis_value(axis);
                Option::Some(if dir_pos {
                    sc - reach
                } else {
                    sc + reach
                })
            } else {
                Option::None
            }
        },
    };
    match tangent {
        Option::Some(t) => {
            if lo <= t && t <= hi {
                t
            } else {
                oldc
            }
        },
        Option::None => oldc,
    }
}

/// Decide `other_axes_in_slab`.
fn in_slab_other_axes(pos: &Vec3, axis: Axis, c: &Vec3, h: &Vec3) -> (r: bool)
    requires
        pos.in_bounds(),
        c.in_bounds(),
        h.within(EXTENT_LIMIT as int),
    ensures
        r == other_axes_in_slab(*pos, axis, *c, *h),
{
    match axis {
        Axis::X => c.y - h.y <= pos.y && pos.y <= c.y + h.y && c.z - h.z <= pos.z && pos.z <= c.z
            + h.z,
        Axis::Y => c.x - h.x <= pos.x && pos.x <= c.x + h.x && c.z - h.z <= pos.z && pos.z <= c.z
            + h.z,
        Axis::Z => c.x - h.x <= pos.x && pos.x <= c.x + h.x && c.y - h.y <= pos.y && pos.y <= c.y
            + h.y,
    }
}

/// Decide `other_axes_equal`.
fn equal_other_axes(pos: &Vec3, axis: Axis, c: &Vec3) -> (r: bool)
    ensures
        r == other_axes_equal(*pos, axis, *c),
{
    match axis {
        Axis::X => pos.y == c.y && pos.z == c.z,
        Axis::Y => pos.x == c.x && pos.z == c.z,
        Axis::Z => pos.x == c.x && pos.y == c.y,
    }
}

/// Decide `center_in_slab`.
fn slab_contains_center(pos: &Vec3, axis: Axis, c: &Vec3, h: &Vec3) -> (r: bool)
    requires
        pos.in_bounds(),
        c.in_bounds(),
        h.within(EXTENT_LIMIT as int),
    ensures
        r == center_in_slab(*pos, axis, *c, *h),
{
    match axis {
        Axis::X => pos.y - h.y <= c.y && c.y <= pos.y + h.y && pos.z - h.z <= c.z && c.z <= pos.z
            + h.z,
        Axis::Y => pos.x - h.x <= c.x && c.x <= pos.x + h.x && pos.z - h.z <= c.z && c.z <= pos.z
            + h.z,
        Axis::Z => pos.x - h.x <= c.x && c.x <= pos.x + h.x && pos.y - h.y <= c.y && c.y <= pos.y
            + h.y,
    }
}

} // verus!
