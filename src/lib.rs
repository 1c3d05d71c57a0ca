//! Decision logic of a recursive, stochastic ray tracer, verified with Verus.
//!
//! The geometry and colour arithmetic of the tracer are floating point; this
//! crate holds the parts of the engine that decide: how the output image is
//! written as text, which hit along a ray is the nearest one that counts, what a
//! material does with a ray that reaches it, and when the recursive radiance
//! estimate stops.
pub mod ppm;
pub mod world;
pub mod material;
pub mod radiance;
