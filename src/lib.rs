//! Runtime scene graph and keyframe-animation core of a real-time 3D engine.
//!
//! Every single-precision quantity of the model (positions, rotations,
//! scales, keyframe times) is held as its IEEE-754 bit pattern in a `u32`.
//! The arithmetic on such values is done by `glam`; this crate decides what
//! is computed and where the results go.
pub mod animation;
pub mod float_bits;
pub mod render_scene;
pub mod scene;
pub mod transform;
