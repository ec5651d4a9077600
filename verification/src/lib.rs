//! A small offline Monte-Carlo path tracer.
//!
//! The renderer works entirely in signed 16.16 fixed-point arithmetic so that
//! every numeric step of the pipeline has an exact mathematical description:
//! camera ray generation, sphere intersection, material scattering, the
//! recursive radiance integrator, and tone mapping to 8-bit output.
//! Randomness is drawn from an explicitly seeded generator that is threaded
//! through every sampling function, one stream per image row.

pub mod camera;
pub mod fixed;
pub mod material;
pub mod math;
pub mod ray;
pub mod rng;
pub mod vec3;
pub mod world;
