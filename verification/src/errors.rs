//! Error taxonomy of the simulation core.
//!
//! Configuration errors are fatal at startup: they indicate a programming or
//! content error, and world initialization refuses to produce a world rather
//! than run with undefined physics behavior. Asset and collider failures
//! are recovered locally — the affected entity is registered without a
//! collider and a warning is recorded — and are never fatal.

use vstd::prelude::*;

verus! {

/// A startup configuration that must be refused.
#[derive(Clone, Copy, Debug, PartialEq, Eq, Structural)]
pub enum ConfigurationError {
    /// The controllable entity's speed is zero or negative, or above the
    /// supported bound.
    InvalidSpeed,
    /// The camera zoom bounds are unreachable: the minimum is zero or
    /// negative, exceeds the maximum, or the maximum is above the supported
    /// bound.
    InvalidZoomBounds,
    /// The camera offset is the zero vector or out of the supported range,
    /// leaving the camera with no defined direction to the target.
    InvalidCameraOffset,
    /// A configured position or collider extent lies outside the valid
    /// world range.
    InvalidGeometry,
}

/// A collider that could not be built from its source shape data. The
/// entity is registered with no collider and treated as non-collidable.
#[derive(Clone, Copy, Debug, PartialEq, Eq, Structural)]
pub enum ColliderBuildError {
    /// The mesh has no vertices or no triangles.
    EmptyMesh,
    /// A triangle refers to a vertex that does not exist.
    IndexOutOfRange,
    /// The mesh has no volume on some axis, or leaves the valid world
    /// range.
    DegenerateMesh,
}

/// A warning recorded during world initialization; never fatal.
#[derive(Clone, Copy, Debug, PartialEq, Eq, Structural)]
pub enum InitWarning {
    /// The scene asset for the entity with the given id could not be
    /// resolved; the entity was created render-only, with no collider.
    AssetMissing { entity: usize },
    /// The collider of the entity with the given id could not be built from
    /// its mesh; the entity was created with no collider.
    ColliderFailed { entity: usize, reason: ColliderBuildError },
}

} // verus!
