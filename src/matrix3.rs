use vstd::prelude::*;

use crate::layout::{column_major_index, column_major_of};
use crate::matrix4::Matrix4;

verus! {

/// 3x3 matrix, stored in column-major order.
#[derive(Debug, Clone, Copy, PartialEq, Eq)]
pub struct Matrix3<T> {
    /// The elements in column-major order.
    pub elements: [T; 9],
}

impl<T: Copy> Matrix3<T> {
    /// The entry at `row` and `col`, counted from zero.
    pub open spec fn at(self, row: int, col: int) -> T {
        self.elements@[column_major_index(3, row, col)]
    }

    /// Creates a new 3x3 matrix with the given row-major elements. The elements
    /// will be stored internally in column-major order.
    #[allow(clippy::too_many_arguments)]
    pub fn new(
        n11: T, n12: T, n13: T,
        n21: T, n22: T, n23: T,
        n31: T, n32: T, n33: T,
    ) -> (r: Self)
        ensures
            r.elements@ == column_major_of(
                3,
                seq![n11, n12, n13, n21, n22, n23, n31, n32, n33],
            ),
    {
        let r = Self {
            elements: [
                n11, n21, n31,
                n12, n22, n32,
                n13, n23, n33,
            ],
        };
        assert(r.elements@ =~= column_major_of(
            3,
            seq![n11, n12, n13, n21, n22, n23, n31, n32, n33],
        ));
        r
    }

    /// Returns the top-left 3x3 matrix of the given 4x4 matrix.
    pub fn from_matrix4(m4: &Matrix4<T>) -> (r: Self)
        ensures
            forall|row: int, col: int|
                0 <= row < 3 && 0 <= col < 3 ==> #[trigger] r.at(row, col) == m4.at(row, col),
    {
        Self {
            elements: [
                m4.elements[0],
                m4.elements[1],
                m4.elements[2],
                m4.elements[4],
                m4.elements[5],
                m4.elements[6],
                m4.elements[8],
                m4.elements[9],
                m4.elements[10],
            ],
        }
    }

    /// Sets the elements of this matrix with the given row-major elements.
    #[allow(clippy::too_many_arguments)]
    pub fn set(
        &mut self,
        n11: T, n12: T, n13: T,
        n21: T, n22: T, n23: T,
        n31: T, n32: T, n33: T,
    )
        ensures
            final(self).elements@ == column_major_of(
                3,
                seq![n11, n12, n13, n21, n22, n23, n31, n32, n33],
            ),
    {
        *self = Self::new(n11, n12, n13, n21, n22, n23, n31, n32, n33);
    }

    /// Returns the transpose of this matrix.
    pub fn transpose(&self) -> (r: Self)
        ensures
            forall|row: int, col: int|
                0 <= row < 3 && 0 <= col < 3 ==> #[trigger] r.at(row, col) == self.at(col, row),
    {
        Self {
            elements: [
                self.elements[0],
                self.elements[3],
                self.elements[6],
                self.elements[1],
                self.elements[4],
                self.elements[7],
                self.elements[2],
                self.elements[5],
                self.elements[8],
            ],
        }
    }
}

} // verus!
