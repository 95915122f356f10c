//! A verified model of a bouncing-cube demo scene: a rigid cube bounces
//! inside a bounded room watched by a perspective camera and lit by orbiting
//! point lights.  All scene mathematics is carried out in signed 16.16
//! fixed-point arithmetic (the scalar module), so every quantity the scene
//! produces — cube pose, camera transform, frustum planes, per-instance
//! transforms and per-light uniform data — has an exact, machine-checked
//! meaning.  The surrounding GPU and window plumbing is ordinary Rust and
//! lives outside this library.

pub mod camera;
pub mod fixed;
pub mod instances;
pub mod mat4;
pub mod model;
pub mod rng;
pub mod trig;
pub mod vec3;
