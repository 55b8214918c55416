//! Geometry, projection and frame scheduling for a rotating wireframe cube
//! drawn as braille dot-matrix text.

pub mod geometry;
pub mod projection;
pub mod session;
pub mod surface;
