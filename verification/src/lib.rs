//! Core of a small Whitted-style ray tracer.
//!
//! The library owns the scene data model (materials, sphere and plane
//! geometry, lights, camera), the fixed-layout byte serialization that feeds
//! a GPU shader, the change-detection state used for progressive
//! accumulation, and the integer decisions of the recursive trace.
//!
//! Floating-point values never appear here: every scalar that the shader
//! reads as a 32-bit float is carried as its IEEE-754 bit pattern in a `u32`,
//! which serializes to the same four bytes. The floating-point arithmetic of
//! the renderer itself (vector math, intersection solving, shading) lives in
//! the unverified front end that drives this library.

pub mod bytes;
pub mod camera;
pub mod connection;
pub mod laws;
pub mod mat44;
pub mod objects;
pub mod scene;
pub mod trace;
pub mod vec3;
