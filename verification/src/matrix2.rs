//! The order-2 matrix: the leaf of the cofactor-expansion family. It exists
//! to be extracted from an order-3 matrix and asked for its determinant.

use vstd::prelude::*;

use crate::layout::to_index;
use crate::scalar::Scalar;

verus! {

/// The determinant of a 2 x 2 matrix with row-major contents `s`, by the
/// closed formula: the product of the main diagonal minus the product of
/// the anti-diagonal, in exactly that operand order.
pub open spec fn det2_of<T: Scalar>(s: Seq<T>) -> T {
    s[0].spec_mul(s[3]).spec_sub(s[1].spec_mul(s[2]))
}

/// A 2 x 2 matrix in row-major layout: entry (row, col) at offset
/// `row * 2 + col` of the view.
#[derive(Debug, Clone, PartialEq)]
pub struct Matrix2x2<T> {
    data: Vec<T>,
}

impl<T> View for Matrix2x2<T> {
    type V = Seq<T>;

    closed spec fn view(&self) -> Seq<T> {
        self.data@
    }
}

impl<T> Matrix2x2<T> {
    /// Shape invariant: exactly four entries.
    pub open spec fn wf(&self) -> bool {
        self@.len() == 4
    }
}

impl<T: Copy> Matrix2x2<T> {
    /// Builds the matrix from its four entries in row-major order.
    pub fn new(data: Vec<T>) -> (m: Matrix2x2<T>)
        requires
            data@.len() == 4,
        ensures
            m@ == data@,
    {
        Matrix2x2 { data }
    }

    /// The entry at (`y`, `x`).
    pub fn get(&self, y: usize, x: usize) -> (r: T)
        requires
            self.wf(),
            y < 2,
            x < 2,
        ensures
            r == self@[y * 2 + x],
    {
        let i = to_index(2, y, x);
        self.data[i]
    }
}

impl<T: Scalar> Matrix2x2<T> {
    /// The determinant, by the closed 2 x 2 formula: the product of the main
    /// diagonal minus the product of the anti-diagonal, in exactly that
    /// operand order.
    pub fn det(&self) -> (r: T)
        requires
            self.wf(),
        ensures
            r == det2_of(self@),
    {
        self.data[0].mul(self.data[3]).sub(self.data[1].mul(self.data[2]))
    }
}

} // verus!
