//! Fixed-size vectors and matrices for graphics and geometry code.
//!
//! The crate offers vectors of two, three and four components, a 2x2 matrix
//! with its determinant and a 4x4 matrix in row-major order with the usual
//! transform constructors, accessors and products. The types are generic over
//! the scalar they hold; every operation is a pure function whose result is
//! stated, and proved, as a formula over the scalar's own operators.
pub mod laws;
pub mod matrix;
pub mod ops;
pub mod scalar;
pub mod vector;

pub use crate::matrix::{collect_mat, Mat2x2, Mat4x4};
pub use crate::scalar::Scalar;
pub use crate::vector::{Vec2, Vec3, Vec4};
