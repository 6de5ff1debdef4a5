//! A real-time 3D rendering engine core: an entity-component store, a
//! declarative scene-loading pipeline, a first-person camera system, and a
//! per-frame lifecycle state machine that recovers from transient
//! presentation failures.
//!
//! All continuous quantities (positions, angles, matrix entries) are held in
//! signed fixed-point with a decimal scale, so that every computation here is
//! exact integer arithmetic with stated contracts. A host layer owns the GPU
//! device, the window and the asset files; it exchanges plain values
//! (handles, fixed-point numbers, strings) with this crate.

pub mod camera;
pub mod cubemap;
pub mod decimal;
pub mod ecs;
pub mod fx;
pub mod json;
pub mod lifecycle;
pub mod mat;
pub mod model;
pub mod scene;
pub mod transform;
pub mod trig;
pub mod uniform;

pub use fx::SCALE;
pub use fx::FX_LIM;
