//! Deterministic simulation core for a small 3D maze-navigation game.
//!
//! The crate owns the world's entities, advances their kinematic state each
//! frame, translates player input into motion, resolves that motion against
//! static collision geometry, and keeps a third-person follow camera within
//! its configured zoom bounds.
//!
//! All world quantities are fixed-point integers: one world unit is
//! `math::SCALE` subunits, and frame time is measured in milliseconds. This
//! keeps every frame exactly reproducible from the input sequence alone.
//!
//! Asset loading, windowing, rendering and input devices are collaborators
//! outside this crate: they hand the core plain values (mesh vertex lists,
//! key states, elapsed milliseconds) and receive plain transforms back.

pub mod assets;
pub mod camera;
pub mod collision;
pub mod errors;
pub mod input;
pub mod math;
pub mod physics;
pub mod sim;
pub mod transform;
pub mod world;

pub use math::Axis;
pub use math::Vec3;
