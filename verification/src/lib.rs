//! A verified core for a minimal real-time rendering application.
//!
//! The library models the CPU-side logic of a GPU frame pipeline: mesh
//! validation, surface configuration and the resize policy, camera state,
//! per-frame transform payloads, and the render/present failure-recovery
//! state machine.  Floating-point values are carried as their IEEE 754
//! bit patterns (`u32`), and the matrix arithmetic itself is delegated to
//! `glam` behind a small set of trusted wrappers.
pub mod app;
pub mod camera;
pub mod mat;
pub mod mesh;
pub mod pipeline;
pub mod surface;
pub mod vertex;
