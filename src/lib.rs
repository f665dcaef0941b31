//! Storage layout and rotation-order vocabulary for a GPU-oriented 3D
//! transform math toolkit.
//!
//! Matrices keep their entries in column-major order, the order in which
//! shading languages read a matrix out of a buffer, and vectors keep their
//! components in the order x, y, z. The types are generic over the element
//! type, so the same layout serves `f32` buffers and exact integer data alike.
//! [`EulerOrder`] names the six orders in which single-axis rotations can be
//! chained.

mod euler;
mod layout;
mod matrix3;
mod matrix4;
mod vector3;

pub use euler::EulerOrder;
pub use layout::{column_major_index, column_major_of, lemma_column_major_entry, row_major_position};
pub use matrix3::Matrix3;
pub use matrix4::Matrix4;
pub use vector3::Vector3;
