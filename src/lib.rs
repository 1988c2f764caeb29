//! Verified core of a stereoscopic VR renderer: per-frame hardware snapshots,
//! controller role resolution, delta-tracked controller state, and a
//! primitive-keyed stereo draw registry.

pub mod shaders;
mod idmap;
pub mod vr;
pub mod draw;
pub mod mesh;
