use vstd::prelude::*;

use crate::layout::{column_major_index, column_major_of};
use crate::vector3::Vector3;

verus! {

/// 4x4 matrix, commonly used to encode transformations i.e. translation,
/// rotation, and scale.
///
/// The entries are stored in column-major order, the order in which shading
/// languages read a matrix out of a buffer.
#[derive(Debug, Clone, Copy)]
pub struct Matrix4<T> {
    /// The elements of this matrix in column-major order.
    pub elements: [T; 16],
}

impl<T: Copy> Matrix4<T> {
    /// The entry at `row` and `col`, counted from zero.
    pub open spec fn at(self, row: int, col: int) -> T {
        self.elements@[column_major_index(4, row, col)]
    }

    /// Creates a new 4x4 matrix with the given row-major elements. The elements
    /// will be stored internally in column-major order.
    #[allow(clippy::too_many_arguments)]
    pub fn new(
        n11: T, n12: T, n13: T, n14: T,
        n21: T, n22: T, n23: T, n24: T,
        n31: T, n32: T, n33: T, n34: T,
        n41: T, n42: T, n43: T, n44: T,
    ) -> (r: Self)
        ensures
            r.elements@ == column_major_of(
                4,
                seq![
                    n11, n12, n13, n14,
                    n21, n22, n23, n24,
                    n31, n32, n33, n34,
                    n41, n42, n43, n44,
                ],
            ),
    {
        let r = Self {
            elements: [
                n11, n21, n31, n41,
                n12, n22, n32, n42,
                n13, n23, n33, n43,
                n14, n24, n34, n44,
            ],
        };
        assert(r.elements@ =~= column_major_of(
            4,
            seq![
                n11, n12, n13, n14,
                n21, n22, n23, n24,
                n31, n32, n33, n34,
                n41, n42, n43, n44,
            ],
        ));
        r
    }

    /// Sets the elements of this matrix with the given row-major elements.
    #[allow(clippy::too_many_arguments)]
    pub fn set(
        &mut self,
        n11: T, n12: T, n13: T, n14: T,
        n21: T, n22: T, n23: T, n24: T,
        n31: T, n32: T, n33: T, n34: T,
        n41: T, n42: T, n43: T, n44: T,
    )
        ensures
            final(self).elements@ == column_major_of(
                4,
                seq![
                    n11, n12, n13, n14,
                    n21, n22, n23, n24,
                    n31, n32, n33, n34,
                    n41, n42, n43, n44,
                ],
            ),
    {
        *self = Self::new(
            n11, n12, n13, n14,
            n21, n22, n23, n24,
            n31, n32, n33, n34,
            n41, n42, n43, n44,
        );
    }

    /// Returns the translation component of this matrix: the top three
    /// entries of its last column.
    pub fn translation(&self) -> (r: Vector3<T>)
        ensures
            r == (Vector3 { x: self.at(0, 3), y: self.at(1, 3), z: self.at(2, 3) }),
    {
        Vector3 { x: self.elements[12], y: self.elements[13], z: self.elements[14] }
    }
}

} // verus!
