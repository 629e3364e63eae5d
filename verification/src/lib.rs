//! A small recursive ray tracer whose arithmetic, geometry and shading
//! pipeline are verified.
//!
//! Every scalar is a signed fixed-point number (see [`fixed`]), so the
//! whole pipeline — linear algebra, ray/shape intersection, the hit list,
//! Phong lighting with shadows, reflection and refraction, and the camera —
//! is specified exactly and proved against those specifications.

pub mod cameras;
pub mod colors;
pub mod fixed;
pub mod loader;
pub mod materials;
pub mod matrices;
pub mod patterns;
pub mod shapes;
pub mod graphics;
pub mod lighting;
pub mod rays;
pub mod scene;
pub mod transforms;
pub mod trig;
pub mod vectors;
