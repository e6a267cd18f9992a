//! A Monte Carlo path tracer over exact fixed-point arithmetic.
//!
//! The numeric core works on `Fx` values: signed 16.16 fixed-point numbers
//! with saturating arithmetic, so that every operation is total and has an
//! exact mathematical specification. On top of that sit sphere geometry and
//! ray intersection, a two-lobe dielectric material model with importance
//! sampling, a recursive path integrator with Russian-roulette termination,
//! and a frame dispatcher with a progressive accumulation buffer.
//!
//! Window management, GPU upload, input handling, camera motion and
//! procedural scene generation are external collaborators: the library takes
//! a camera snapshot (position and screen vectors) and a scene (a vector of
//! spheres) and hands back a pixel buffer.

pub mod config;
pub mod fx;
pub mod geom;
pub mod integrate;
pub mod intersect;
pub mod material;
pub mod rng;
pub mod semantics;
pub mod tracer;
pub mod vec3;
