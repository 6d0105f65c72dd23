//! The intersection core of a ray tracer: a planar primitive and the
//! `Shape` capability that every primitive offers to the renderer.
//!
//! All arithmetic goes through the `Scalar` capability, so the geometry is
//! stated and proved once for any number type that supplies it.
pub mod material;
pub mod plane;
pub mod scalar;
pub mod shape;
pub mod vec3;
