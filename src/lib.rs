//! A small linear-algebra kernel for 3D graphics: vectors of two to four
//! components, a column-major 4x4 matrix, transform builders and projection.
//!
//! Every operation is written once for any scalar type `T: Scalar` (the
//! arithmetic operators and small integer constants). Contracts state each
//! result as the same formula evaluated in `T`'s arithmetic; they are exact
//! whenever `T`'s operations follow their specifications, as machine integers
//! do. Single-precision floats are the scalar used for rendering; the square
//! roots and trigonometric values the builders need are taken as arguments.

pub mod laws;
pub mod matrix;
pub mod projection;
pub mod scalar;
pub mod transform;
pub mod vector;

pub use matrix::{Inverse, Mat4, Matrix, Transpose};
pub use projection::Perspective;
pub use scalar::Scalar;
pub use vector::{Cross, Dot, Normalize, Repeat, Vec2, Vec3, Vec4, VecN, Vector};
