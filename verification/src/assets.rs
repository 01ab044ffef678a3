//! Collider construction from resolved scene assets.
//!
//! The asset loader collaborator resolves a named scene asset into plain
//! shape data: a triangle mesh as vertex and index lists in fixed-point
//! world coordinates. Static world geometry collides through the covering
//! axis-aligned cuboid of its mesh — a conservative convex stand-in for the
//! triangle surface. A mesh that is empty, refers to missing vertices, is
//! flat on some axis or leaves the valid world range cannot produce a
//! collider; the caller recovers by registering the entity with no collider
//! at all.

use vstd::prelude::*;

use crate::collision::Collider;
use crate::collision::PlacedCollider;
use crate::errors::ColliderBuildError;
use crate::math::Vec3;
use crate::math::POS_LIMIT;

verus! {

/// One triangle of a mesh, as indices into the vertex list.
#[derive(Clone, Copy, Debug, PartialEq, Eq, Structural)]
pub struct Triangle {
    pub a: usize,
    pub b: usize,
    pub c: usize,
}

/// A triangle mesh in world coordinates, as the asset loader hands it over.
#[derive(Debug)]
pub struct MeshData {
    pub vertices: Vec<Vec3>,
    pub triangles: Vec<Triangle>,
}

/// The resolution of a named scene asset: either its mesh, or nothing.
#[derive(Debug)]
pub enum AssetResolution {
    Resolved(MeshData),
    Missing,
}

/// Some triangle refers to a vertex index outside the vertex list.
pub open spec fn has_bad_index(mesh: MeshData) -> bool {
    exists|i: int|
        0 <= i < mesh.triangles@.len() && {
            let t = #[trigger] mesh.triangles@[i];
            t.a >= mesh.vertices@.len() || t.b >= mesh.vertices@.len() || t.c
                >= mesh.vertices@.len()
        }
}

/// Some vertex lies outside the valid world range.
pub open spec fn has_oob_vertex(mesh: MeshData) -> bool {
    exists|i: int| 0 <= i < mesh.vertices@.len() && !(#[trigger] mesh.vertices@[i]).in_bounds()
}

/// All vertices share one coordinate on axis X, Y or Z: the mesh encloses
/// no volume.
pub open spec fn is_flat(mesh: MeshData) -> bool {
    let v0 = mesh.vertices@[0];
    ||| forall|i: int| 0 <= i < mesh.vertices@.len() ==> (#[trigger] mesh.vertices@[i]).x == v0.x
    ||| forall|i: int| 0 <= i < mesh.vertices@.len() ==> (#[trigger] mesh.vertices@[i]).y == v0.y
    ||| forall|i: int| 0 <= i < mesh.vertices@.len() ==> (#[trigger] mesh.vertices@[i]).z == v0.z
}

/// `placed` is a cuboid that contains every vertex of `mesh`.
pub open spec fn covers_mesh(placed: PlacedCollider, mesh: MeshData) -> bool {
    match placed.shape {
        Collider::Cuboid { half } => forall|i: int|
            0 <= i < mesh.vertices@.len() ==> {
                let v = #[trigger] mesh.vertices@[i];
                &&& placed.center.x - half.x <= v.x <= placed.center.x + half.x
                &&& placed.center.y - half.y <= v.y <= placed.center.y + half.y
                &&& placed.center.z - half.z <= v.z <= placed.center.z + half.z
            },
        Collider::Sphere { .. } => false,
    }
}

/// `placed` is a tight cover: on each axis its low face sits exactly on
/// the least vertex coordinate, and its high face within one subunit above
/// the greatest — some vertex reaches to at most one subunit below it.
/// Together with `covers_mesh` this pins the cuboid to the mesh's actual
/// bounds: no face can be pushed outward.
pub open spec fn tight_cover(placed: PlacedCollider, mesh: MeshData) -> bool {
    match placed.shape {
        Collider::Cuboid { half } => {
            &&& exists|j: int|
                0 <= j < mesh.vertices@.len() && (#[trigger] mesh.vertices@[j]).x == placed.center.x
                    - half.x
            &&& exists|j: int|
                0 <= j < mesh.vertices@.len() && (#[trigger] mesh.vertices@[j]).y == placed.center.y
                    - half.y
            &&& exists|j: int|
                0 <= j < mesh.vertices@.len() && (#[trigger] mesh.vertices@[j]).z == placed.center.z
                    - half.z
            &&& exists|j: int|
                0 <= j < mesh.vertices@.len() && placed.center.x + half.x <= (
                #[trigger] mesh.vertices@[j]).x + 1
            &&& exists|j: int|
                0 <= j < mesh.vertices@.len() && placed.center.y + half.y <= (
                #[trigger] mesh.vertices@[j]).y + 1
            &&& exists|j: int|
                0 <= j < mesh.vertices@.len() && placed.center.z + half.z <= (
                #[trigger] mesh.vertices@[j]).z + 1
        },
        Collider::Sphere { .. } => false,
    }
}

/// Build the static collider of a mesh asset: the covering axis-aligned
/// cuboid of its vertices, tight on every face. Fails — and the entity is
/// then registered non-collidable — exactly when the mesh is empty, refers
/// to a missing vertex, has a vertex out of world range, or is flat on some
/// axis.
pub fn build_mesh_collider(mesh: &MeshData) -> (r: Result<PlacedCollider, ColliderBuildError>)
    ensures
        match r {
            Result::Ok(placed) => {
                &&& placed.valid()
                &&& covers_mesh(placed, *mesh)
                &&& tight_cover(placed, *mesh)
                &&& mesh.vertices@.len() > 0
                &&& mesh.triangles@.len() > 0
                &&& !has_bad_index(*mesh)
                &&& !has_oob_vertex(*mesh)
                &&& !is_flat(*mesh)
            },
            Result::Err(e) => {
                &&& ((e is EmptyMesh) <==> (mesh.vertices@.len() == 0 || mesh.triangles@.len()
                    == 0))
                &&& ((e is IndexOutOfRange) ==> has_bad_index(*mesh))
                &&& ((e is DegenerateMesh) ==> (has_oob_vertex(*mesh) || is_flat(*mesh)))
            },
        },
        r.is_err() <==> (mesh.vertices@.len() == 0 || mesh.triangles@.len() == 0 || has_bad_index(
            *mesh,
        ) || has_oob_vertex(*mesh) || is_flat(*mesh)),
{
    let nv = mesh.vertices.len();
    let nt = mesh.triangles.len();
    if nv == 0 || nt == 0 {
        return Result::Err(ColliderBuildError::EmptyMesh);
    }
    let mut i: usize = 0;
    while i < nt
        invariant
            0 <= i <= nt,
            0 < nt,
            0 < nv,
            nt == mesh.triangles@.len(),
            nv == mesh.vertices@.len(),
            forall|j: int|
                0 <= j < i ==> {
                    let t = #[trigger] mesh.triangles@[j];
                    t.a < nv && t.b < nv && t.c < nv
                },
        decreases nt - i,
    {
        let t = mesh.triangles[i];
        if t.a >= nv || t.b >= nv || t.c >= nv {
            proof {
                assert(mesh.triangles@[i as int] == t);
                assert(has_bad_index(*mesh));
            }
            return Result::Err(ColliderBuildError::IndexOutOfRange);
        }
        i = i + 1;
    }
    let first = mesh.vertices[0];
    if !(-POS_LIMIT <= first.x && first.x <= POS_LIMIT && -POS_LIMIT <= first.y && first.y
        <= POS_LIMIT && -POS_LIMIT <= first.z && first.z <= POS_LIMIT) {
        proof {
            assert(mesh.vertices@[0] == first);
            assert(has_oob_vertex(*mesh));
        }
        return Result::Err(ColliderBuildError::DegenerateMesh);
    }
    let mut lo = first;
    let mut hi = first;
    let mut k: usize = 1;
    while k < nv
        invariant
            1 <= k <= nv,
            0 < nt,
            nt == mesh.triangles@.len(),
            nv == mesh.vertices@.len(),
            lo.in_bounds(),
            hi.in_bounds(),
            lo.x <= hi.x && lo.y <= hi.y && lo.z <= hi.z,
            forall|j: int|
                0 <= j < k ==> {
                    let v = #[trigger] mesh.vertices@[j];
                    lo.x <= v.x <= hi.x && lo.y <= v.y <= hi.y && lo.z <= v.z <= hi.z
                },
            exists|j: int| 0 <= j < k && (#[trigger] mesh.vertices@[j]).x == lo.x,
            exists|j: int| 0 <= j < k && (#[trigger] mesh.vertices@[j]).x == hi.x,
            exists|j: int| 0 <= j < k && (#[trigger] mesh.vertices@[j]).y == lo.y,
            exists|j: int| 0 <= j < k && (#[trigger] mesh.vertices@[j]).y == hi.y,
            exists|j: int| 0 <= j < k && (#[trigger] mesh.vertices@[j]).z == lo.z,
            exists|j: int| 0 <= j < k && (#[trigger] mesh.vertices@[j]).z == hi.z,
        decreases nv - k,
    {
        let v = mesh.vertices[k];
        if !(-POS_LIMIT <= v.x && v.x <= POS_LIMIT && -POS_LIMIT <= v.y && v.y <= POS_LIMIT
            && -POS_LIMIT <= v.z && v.z <= POS_LIMIT) {
            proof {
                assert(mesh.vertices@[k as int] == v);
                assert(has_oob_vertex(*mesh));
            }
            return Result::Err(ColliderBuildError::DegenerateMesh);
        }
        if v.x < lo.x {
            lo = Vec3 { x: v.x, ..lo };
        }
        if v.x > hi.x {
            hi = Vec3 { x: v.x, ..hi };
        }
        if v.y < lo.y {
            lo = Vec3 { y: v.y, ..lo };
        }
        if v.y > hi.y {
            hi = Vec3 { y: v.y, ..hi };
        }
        if v.z < lo.z {
            lo = Vec3 { z: v.z, ..lo };
        }
        if v.z > hi.z {
            hi = Vec3 { z: v.z, ..hi };
        }
        k = k + 1;
    }
    if lo.x == hi.x || lo.y == hi.y || lo.z == hi.z {
        proof {
            assert(mesh.vertices@[0] == first);
            if lo.x == hi.x {
                assert(forall|i: int|
                    0 <= i < mesh.vertices@.len() ==> (#[trigger] mesh.vertices@[i]).x == first.x);
            } else if lo.y == hi.y {
                assert(forall|i: int|
                    0 <= i < mesh.vertices@.len() ==> (#[trigger] mesh.vertices@[i]).y == first.y);
            } else {
                assert(forall|i: int|
                    0 <= i < mesh.vertices@.len() ==> (#[trigger] mesh.vertices@[i]).z == first.z);
            }
            assert(is_flat(*mesh));
        }
        return Result::Err(ColliderBuildError::DegenerateMesh);
    }
    let hx = half_extent(lo.x, hi.x);
    let hy = half_extent(lo.y, hi.y);
    let hz = half_extent(lo.z, hi.z);
    let center = Vec3 { x: lo.x + hx, y: lo.y + hy, z: lo.z + hz };
    let placed = PlacedCollider {
        shape: Collider::Cuboid { half: Vec3 { x: hx, y: hy, z: hz } },
        center,
    };
    proof {
        assert(mesh.vertices@[0] == first);
        assert forall|i: int| 0 <= i < mesh.vertices@.len() implies (
        #[trigger] mesh.vertices@[i]).in_bounds() by {
            assert(lo.x <= mesh.vertices@[i].x <= hi.x);
            assert(lo.y <= mesh.vertices@[i].y <= hi.y);
            assert(lo.z <= mesh.vertices@[i].z <= hi.z);
        };
        assert(!has_oob_vertex(*mesh));
        assert(!has_bad_index(*mesh));
        assert(!is_flat(*mesh)) by {
            let jlx = choose|j: int|
                0 <= j < mesh.vertices@.len() && (#[trigger] mesh.vertices@[j]).x == lo.x;
            let jhx = choose|j: int|
                0 <= j < mesh.vertices@.len() && (#[trigger] mesh.vertices@[j]).x == hi.x;
            let jly = choose|j: int|
                0 <= j < mesh.vertices@.len() && (#[trigger] mesh.vertices@[j]).y == lo.y;
            let jhy = choose|j: int|
                0 <= j < mesh.vertices@.len() && (#[trigger] mesh.vertices@[j]).y == hi.y;
            let jlz = choose|j: int|
                0 <= j < mesh.vertices@.len() && (#[trigger] mesh.vertices@[j]).z == lo.z;
            let jhz = choose|j: int|
                0 <= j < mesh.vertices@.len() && (#[trigger] mesh.vertices@[j]).z == hi.z;
            assert(mesh.vertices@[jlx].x == lo.x && mesh.vertices@[jhx].x == hi.x);
            assert(mesh.vertices@[jly].y == lo.y && mesh.vertices@[jhy].y == hi.y);
            assert(mesh.vertices@[jlz].z == lo.z && mesh.vertices@[jhz].z == hi.z);
        };
        assert(covers_mesh(placed, *mesh)) by {
            assert forall|i: int| 0 <= i < mesh.vertices@.len() implies {
                let v = #[trigger] mesh.vertices@[i];
                &&& center.x - hx <= v.x <= center.x + hx
                &&& center.y - hy <= v.y <= center.y + hy
                &&& center.z - hz <= v.z <= center.z + hz
            } by {
                assert(lo.x <= mesh.vertices@[i].x <= hi.x);
                assert(lo.y <= mesh.vertices@[i].y <= hi.y);
                assert(lo.z <= mesh.vertices@[i].z <= hi.z);
            };
        };
        assert(tight_cover(placed, *mesh)) by {
            assert(center.x - hx == lo.x && center.y - hy == lo.y && center.z - hz == lo.z);
            let jhx = choose|j: int|
                0 <= j < mesh.vertices@.len() && (#[trigger] mesh.vertices@[j]).x == hi.x;
            let jhy = choose|j: int|
                0 <= j < mesh.vertices@.len() && (#[trigger] mesh.vertices@[j]).y == hi.y;
            let jhz = choose|j: int|
                0 <= j < mesh.vertices@.len() && (#[trigger] mesh.vertices@[j]).z == hi.z;
            assert(center.x + hx <= mesh.vertices@[jhx].x + 1);
            assert(center.y + hy <= mesh.vertices@[jhy].y + 1);
            assert(center.z + hz <= mesh.vertices@[jhz].z + 1);
        };
    }
    Result::Ok(placed)
}

/// Half of a positive extent, rounded up: the covering span `lo + 2 * half`
/// reaches `hi`, overshooting by at most one subunit.
fn half_extent(lo: i64, hi: i64) -> (h: i64)
    requires
        -POS_LIMIT <= lo < hi <= POS_LIMIT,
    ensures
        0 < h <= POS_LIMIT,
        -POS_LIMIT <= lo + h <= POS_LIMIT,
        hi <= lo + 2 * h <= hi + 1,
{
    let e = hi - lo;
    let h = (e + 1) / 2;
    proof {
        assert(e + 1 == 2 * ((e + 1) / 2) + ((e + 1) % 2)) by {
            vstd::arithmetic::div_mod::lemma_fundamental_div_mod(e + 1, 2);
        };
        assert(0 <= (e + 1) % 2 < 2);
        assert(2 * h >= e);
        assert(h <= (e + 1) / 2);
        assert(lo + h <= POS_LIMIT) by {
            assert(2 * h <= e + 1);
            assert(2 * (lo + h) <= lo + hi + 1);
            assert(lo + hi + 1 <= 2 * POS_LIMIT + 1);
        };
    }
    h
}

} // verus!
