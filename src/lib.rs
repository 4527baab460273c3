//! Procedural material generation gated on scene readiness, and a timed
//! multi-phase camera benchmark.

pub mod hash;
pub mod mip;
pub mod texture;
pub mod material;
pub mod bench;
