//! Scene-asset pipeline for a real-time 3D renderer.
//!
//! The library converts decoded mesh and material records into a renderable,
//! transformable scene graph and assembles the per-frame data (vertex
//! streams, transform matrices, light and material parameters) a rendering
//! backend consumes. All geometric quantities are carried in a signed 16.16
//! fixed-point representation so that every computation is exact, total and
//! verifiable; the unverified shell converts the asset loader's floating
//! point samples into this representation at the boundary.

pub mod asset;
pub mod camera;
pub mod common;
pub mod entity;
pub mod fixed;
pub mod laws;
pub mod light_source;
pub mod material;
pub mod object;
pub mod scene;
pub mod matrix;
pub mod vector;
