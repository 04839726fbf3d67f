//! Two- and three-component vectors over a generic element type, with
//! componentwise arithmetic, dot products and length queries.

mod scalar;
pub mod laws;
pub mod vector2;
pub mod vector3;

pub use vector2::{vec2_dot, Vector2, Vector2i};
pub use vector3::{vec3_dot, Vector3};
