//! The order-3 matrix: submatrix extraction down to order 2, and the
//! minor / cofactor / determinant family built on it.

use vstd::prelude::*;

use crate::layout::kept_index;
use crate::layout::lemma_layout_round_trip;
use crate::layout::sign_flips;
use crate::layout::submatrix_seq;
use crate::layout::to_index;
use crate::layout::spec_sign_flips;
use crate::matrix2::Matrix2x2;
use crate::matrix2::det2_of;
use crate::scalar::Scalar;

verus! {

/// The minor at (`row`, `col`) of a 3 x 3 matrix with row-major contents
/// `s`: the determinant of the 2 x 2 submatrix that deletes that row and
/// column.
pub open spec fn minor3_of<T: Scalar>(s: Seq<T>, row: int, col: int) -> T {
    det2_of(submatrix_seq(s, 3, row, col))
}

/// The cofactor at (`row`, `col`) of a 3 x 3 matrix with contents `s`: the
/// minor, negated exactly when the checkerboard sign flips.
pub open spec fn cofactor3_of<T: Scalar>(s: Seq<T>, row: int, col: int) -> T {
    if spec_sign_flips(row, col) {
        minor3_of(s, row, col).spec_neg()
    } else {
        minor3_of(s, row, col)
    }
}

/// The first `n` terms of the Laplace expansion of a 3 x 3 determinant
/// along row 0: a left fold, seeded with the scalar zero, of entry (0, col)
/// times the cofactor at (0, col).
pub open spec fn det3_fold<T: Scalar>(s: Seq<T>, n: int) -> T
    decreases n,
{
    if n <= 0 {
        T::spec_zero()
    } else {
        det3_fold(s, n - 1).spec_add(s[n - 1].spec_mul(cofactor3_of(s, 0, n - 1)))
    }
}

/// The determinant of a 3 x 3 matrix with contents `s`: all three terms of
/// the row-0 Laplace expansion, summed left to right.
pub open spec fn det3_of<T: Scalar>(s: Seq<T>) -> T {
    det3_fold(s, 3)
}

/// The 3 x 3 determinant written out entry by entry: each row-0 cofactor
/// is the 2 x 2 determinant of the named surviving entries, negated for
/// the middle column.
pub proof fn lemma_det3_of_entries<T: Scalar>(s: Seq<T>)
    requires
        s.len() == 9,
    ensures
        det3_of(s) == T::spec_zero().spec_add(
            s[0].spec_mul(det2_of(seq![s[4], s[5], s[7], s[8]])),
        ).spec_add(s[1].spec_mul(det2_of(seq![s[3], s[5], s[6], s[8]]).spec_neg())).spec_add(
            s[2].spec_mul(det2_of(seq![s[3], s[4], s[6], s[7]])),
        ),
{
    reveal_with_fuel(det3_fold, 4);
    assert(submatrix_seq(s, 3, 0, 0) =~= seq![s[4], s[5], s[7], s[8]]);
    assert(submatrix_seq(s, 3, 0, 1) =~= seq![s[3], s[5], s[6], s[8]]);
    assert(submatrix_seq(s, 3, 0, 2) =~= seq![s[3], s[4], s[6], s[7]]);
}

/// A 3 x 3 matrix in row-major layout: entry (row, col) at offset
/// `row * 3 + col` of the view.
#[derive(Debug, Clone, PartialEq)]
pub struct Matrix3x3<T> {
    data: Vec<T>,
}

impl<T> View for Matrix3x3<T> {
    type V = Seq<T>;

    closed spec fn view(&self) -> Seq<T> {
        self.data@
    }
}

impl<T> Matrix3x3<T> {
    /// Shape invariant: exactly nine entries.
    pub open spec fn wf(&self) -> bool {
        self@.len() == 9
    }
}

impl<T: Copy> Matrix3x3<T> {
    /// Builds the matrix from its nine entries in row-major order.
    pub fn new(data: Vec<T>) -> (m: Matrix3x3<T>)
        requires
            data@.len() == 9,
        ensures
            m@ == data@,
    {
        Matrix3x3 { data }
    }

    /// The entry at (`y`, `x`).
    pub fn get(&self, y: usize, x: usize) -> (r: T)
        requires
            self.wf(),
            y < 3,
            x < 3,
        ensures
            r == self@[y * 3 + x],
    {
        let i = to_index(3, y, x);
        self.data[i]
    }

    /// The order-2 matrix left when row `row` and column `col` are deleted;
    /// the surviving entries keep their relative row and column order.
    pub fn submatrix(&self, row: usize, col: usize) -> (r: Matrix2x2<T>)
        requires
            self.wf(),
            row < 3,
            col < 3,
        ensures
            r@ == submatrix_seq(self@, 3, row as int, col as int),
            r.wf(),
    {
        let ghost target = submatrix_seq(self@, 3, row as int, col as int);
        let mut data: Vec<T> = Vec::new();
        for y in 0..2usize
            invariant
                self.wf(),
                row < 3,
                col < 3,
                data@.len() == y * 2,
                forall|i: int| 0 <= i < data@.len() ==> data@[i] == target[i],
                target == submatrix_seq(self@, 3, row as int, col as int),
        {
            for x in 0..2usize
                invariant
                    self.wf(),
                    row < 3,
                    col < 3,
                    y < 2,
                    data@.len() == y * 2 + x,
                    forall|i: int| 0 <= i < data@.len() ==> data@[i] == target[i],
                    target == submatrix_seq(self@, 3, row as int, col as int),
            {
                let sy = kept_index(row, y);
                let sx = kept_index(col, x);
                data.push(self.get(sy, sx));
                proof {
                    lemma_layout_round_trip(2, y as int, x as int);
                    assert(data@[y * 2 + x] == target[y * 2 + x]);
                }
            }
        }
        let r = Matrix2x2::new(data);
        proof {
            assert(r@ =~= target);
        }
        r
    }
}

impl<T: Scalar> Matrix3x3<T> {
    /// The minor at (`row`, `col`): the determinant of the submatrix that
    /// deletes that row and column.
    pub fn minor(&self, row: usize, col: usize) -> (r: T)
        requires
            self.wf(),
            row < 3,
            col < 3,
        ensures
            r == minor3_of(self@, row as int, col as int),
    {
        self.submatrix(row, col).det()
    }

    /// The cofactor at (`row`, `col`): the minor, negated exactly when
    /// `row + col` is odd — the checkerboard sign pattern that starts with
    /// `+` at (0, 0).
    pub fn cofactor(&self, row: usize, col: usize) -> (r: T)
        requires
            self.wf(),
            row < 3,
            col < 3,
        ensures
            r == cofactor3_of(self@, row as int, col as int),
    {
        let m = self.minor(row, col);
        if sign_flips(row, col) {
            m.neg()
        } else {
            m
        }
    }

    /// The determinant, by Laplace expansion along row 0: the sum, seeded
    /// with zero and folded left, of entry (0, col) times the cofactor at
    /// (0, col) for each column in turn.
    pub fn det(&self) -> (r: T)
        requires
            self.wf(),
        ensures
            r == det3_of(self@),
    {
        let mut acc = T::zero();
        for i in 0..3usize
            invariant
                self.wf(),
                acc == det3_fold(self@, i as int),
        {
            acc = acc.add(self.get(0, i).mul(self.cofactor(0, i)));
        }
        acc
    }
}

} // verus!
