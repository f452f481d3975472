//! The order-4 matrix: the public face of the family. Construction, the
//! zero and identity matrices, element access, transposition, submatrix
//! extraction down to order 3, the cofactor-expansion determinant, the
//! invertibility test, inversion by the adjugate method, and the two
//! multiplications (matrix by matrix, matrix by homogeneous tuple).

use vstd::prelude::*;

use crate::layout::kept_index;
use crate::layout::lemma_layout_round_trip;
use crate::layout::sign_flips;
use crate::layout::submatrix_seq;
use crate::layout::to_index;
use crate::layout::spec_sign_flips;
use crate::matrix3::Matrix3x3;
use crate::matrix3::det3_of;
use crate::scalar::Scalar;
use crate::tuple::Tuple4;

verus! {

/// The minor at (`row`, `col`) of a 4 x 4 matrix with row-major contents
/// `s`: the determinant of the 3 x 3 submatrix that deletes that row and
/// column.
pub open spec fn minor4_of<T: Scalar>(s: Seq<T>, row: int, col: int) -> T {
    det3_of(submatrix_seq(s, 4, row, col))
}

/// The cofactor at (`row`, `col`) of a 4 x 4 matrix with contents `s`: the
/// minor, negated exactly when the checkerboard sign flips.
pub open spec fn cofactor4_of<T: Scalar>(s: Seq<T>, row: int, col: int) -> T {
    if spec_sign_flips(row, col) {
        minor4_of(s, row, col).spec_neg()
    } else {
        minor4_of(s, row, col)
    }
}

/// The first `n` terms of the Laplace expansion of a 4 x 4 determinant
/// along row 0: a left fold, seeded with the scalar zero, of entry (0, col)
/// times the cofactor at (0, col).
pub open spec fn det4_fold<T: Scalar>(s: Seq<T>, n: int) -> T
    decreases n,
{
    if n <= 0 {
        T::spec_zero()
    } else {
        det4_fold(s, n - 1).spec_add(s[n - 1].spec_mul(cofactor4_of(s, 0, n - 1)))
    }
}

/// The determinant of a 4 x 4 matrix with contents `s`: all four terms of
/// the row-0 Laplace expansion, summed left to right.
pub open spec fn det4_of<T: Scalar>(s: Seq<T>) -> T {
    det4_fold(s, 4)
}

/// The 4 x 4 determinant written out entry by entry: each row-0 cofactor
/// is the 3 x 3 determinant of the named surviving entries, negated for
/// the odd columns.
pub proof fn lemma_det4_of_entries<T: Scalar>(s: Seq<T>)
    requires
        s.len() == 16,
    ensures
        det4_of(s) == T::spec_zero().spec_add(
            s[0].spec_mul(
                det3_of(seq![s[5], s[6], s[7], s[9], s[10], s[11], s[13], s[14], s[15]]),
            ),
        ).spec_add(
            s[1].spec_mul(
                det3_of(seq![s[4], s[6], s[7], s[8], s[10], s[11], s[12], s[14], s[15]])
                    .spec_neg(),
            ),
        ).spec_add(
            s[2].spec_mul(
                det3_of(seq![s[4], s[5], s[7], s[8], s[9], s[11], s[12], s[13], s[15]]),
            ),
        ).spec_add(
            s[3].spec_mul(
                det3_of(seq![s[4], s[5], s[6], s[8], s[9], s[10], s[12], s[13], s[14]])
                    .spec_neg(),
            ),
        ),
{
    reveal_with_fuel(det4_fold, 5);
    assert(submatrix_seq(s, 4, 0, 0) =~= seq![s[5], s[6], s[7], s[9], s[10], s[11], s[13], s[14], s[15]]);
    assert(submatrix_seq(s, 4, 0, 1) =~= seq![s[4], s[6], s[7], s[8], s[10], s[11], s[12], s[14], s[15]]);
    assert(submatrix_seq(s, 4, 0, 2) =~= seq![s[4], s[5], s[7], s[8], s[9], s[11], s[12], s[13], s[15]]);
    assert(submatrix_seq(s, 4, 0, 3) =~= seq![s[4], s[5], s[6], s[8], s[9], s[10], s[12], s[13], s[14]]);
}

/// The first `n` terms of the dot product of row `y` of `a` with column
/// `x` of `b`: a left fold, seeded with the scalar zero.
pub open spec fn product_fold<T: Scalar>(a: Seq<T>, b: Seq<T>, y: int, x: int, n: int) -> T
    decreases n,
{
    if n <= 0 {
        T::spec_zero()
    } else {
        product_fold(a, b, y, x, n - 1).spec_add(
            a[y * 4 + (n - 1)].spec_mul(b[(n - 1) * 4 + x]),
        )
    }
}

/// Entry (`y`, `x`) of the product of two 4 x 4 matrices with contents `a`
/// and `b`: the full four-term dot product of row `y` of `a` with column
/// `x` of `b`, summed in column order.
pub open spec fn product_entry<T: Scalar>(a: Seq<T>, b: Seq<T>, y: int, x: int) -> T {
    product_fold(a, b, y, x, 4)
}

/// The dot product of row `y` of a 4 x 4 matrix with contents `s` and the
/// tuple `t` taken as the column vector (x, y, z, w): folded left without
/// a seed, exactly in that component order.
pub open spec fn tuple_dot<T: Scalar>(s: Seq<T>, y: int, t: Tuple4<T>) -> T {
    s[y * 4].spec_mul(t.x).spec_add(s[y * 4 + 1].spec_mul(t.y)).spec_add(
        s[y * 4 + 2].spec_mul(t.z),
    ).spec_add(s[y * 4 + 3].spec_mul(t.w))
}

/// The identity law for exact integer entries: multiplying a matrix by
/// the identity matrix on either side leaves every entry unchanged, since
/// integer one is neutral for multiplication, integer zero annihilates it,
/// and integer zero is neutral for addition. `ident` is the contents that
/// [`Matrix4x4::identity`] promises for integer entries.
pub proof fn lemma_identity_product_i64(s: Seq<i64>, ident: Seq<i64>)
    requires
        s.len() == 16,
        ident.len() == 16,
        forall|i: int| 0 <= i < 16 ==> ident[i] == (if on_diagonal(i) { 1i64 } else { 0i64 }),
    ensures
        forall|i: int| 0 <= i < 16 ==> product_entry(s, ident, i / 4, i % 4) == s[i],
        forall|i: int| 0 <= i < 16 ==> product_entry(ident, s, i / 4, i % 4) == s[i],
{
    assert forall|y: int, x: int| 0 <= y < 4 && 0 <= x < 4 implies #[trigger] ident[y * 4 + x]
        == (if y == x {
        1i64
    } else {
        0i64
    }) by {
        lemma_on_diagonal(y, x);
    }
    assert forall|i: int| 0 <= i < 16 implies product_entry(s, ident, i / 4, i % 4) == s[i]
        && product_entry(ident, s, i / 4, i % 4) == s[i] by {
        let y = i / 4;
        let x = i % 4;
        vstd::arithmetic::div_mod::lemma_fundamental_div_mod(i, 4);
        reveal_with_fuel(product_fold, 5);
        crate::scalar::lemma_i64_identity_ops(s[y * 4 + 0]);
        crate::scalar::lemma_i64_identity_ops(s[y * 4 + 1]);
        crate::scalar::lemma_i64_identity_ops(s[y * 4 + 2]);
        crate::scalar::lemma_i64_identity_ops(s[y * 4 + 3]);
        crate::scalar::lemma_i64_identity_ops(s[0 * 4 + x]);
        crate::scalar::lemma_i64_identity_ops(s[1 * 4 + x]);
        crate::scalar::lemma_i64_identity_ops(s[2 * 4 + x]);
        crate::scalar::lemma_i64_identity_ops(s[3 * 4 + x]);
        crate::scalar::lemma_i64_identity_ops(0i64);
    }
}

/// The identity law for the tuple product over exact integer entries:
/// applying the identity matrix to a tuple gives the tuple back.
pub proof fn lemma_identity_tuple_i64(ident: Seq<i64>, t: Tuple4<i64>)
    requires
        ident.len() == 16,
        forall|i: int| 0 <= i < 16 ==> ident[i] == (if on_diagonal(i) { 1i64 } else { 0i64 }),
    ensures
        tuple_dot(ident, 0, t) == t.x,
        tuple_dot(ident, 1, t) == t.y,
        tuple_dot(ident, 2, t) == t.z,
        tuple_dot(ident, 3, t) == t.w,
{
    assert forall|y: int, x: int| 0 <= y < 4 && 0 <= x < 4 implies #[trigger] ident[y * 4 + x]
        == (if y == x {
        1i64
    } else {
        0i64
    }) by {
        lemma_on_diagonal(y, x);
    }
    crate::scalar::lemma_i64_identity_ops(t.x);
    crate::scalar::lemma_i64_identity_ops(t.y);
    crate::scalar::lemma_i64_identity_ops(t.z);
    crate::scalar::lemma_i64_identity_ops(t.w);
    crate::scalar::lemma_i64_identity_ops(0i64);
}

/// The row-major contents of the transpose of a 4 x 4 matrix with contents
/// `s`: entry (`y`, `x`) of the result is entry (`x`, `y`) of the source.
pub open spec fn transpose_seq<T>(s: Seq<T>) -> Seq<T> {
    Seq::new(16, |i: int| s[(i % 4) * 4 + i / 4])
}

/// Transposing is an involution: doing it twice gives back the original
/// contents. Together with the contract of [`Matrix4x4::transpose`], this
/// says that `m.transpose().transpose()` equals `m` entry for entry.
pub proof fn lemma_transpose_involution<T>(s: Seq<T>)
    requires
        s.len() == 16,
    ensures
        transpose_seq(transpose_seq(s)) == s,
{
    let t = transpose_seq(s);
    assert forall|i: int| 0 <= i < 16 implies transpose_seq(t)[i] == s[i] by {
        lemma_layout_round_trip(4, i % 4, i / 4);
        vstd::arithmetic::div_mod::lemma_fundamental_div_mod(i, 4);
    }
    assert(transpose_seq(transpose_seq(s)) =~= s);
}

/// The failure that [`Matrix4x4::inverse`] reports when the determinant
/// does not meet the precision threshold: inversion is undefined for the
/// input, and no best-effort result is produced.
#[derive(Debug, Clone, Copy, PartialEq, Eq)]
pub struct NotInvertibleError;

/// A 4 x 4 matrix in row-major layout: entry (row, col) at offset
/// `row * 4 + col` of the view.
#[derive(Debug, Clone, PartialEq)]
pub struct Matrix4x4<T> {
    data: Vec<T>,
}

impl<T> View for Matrix4x4<T> {
    type V = Seq<T>;

    closed spec fn view(&self) -> Seq<T> {
        self.data@
    }
}

impl<T> Matrix4x4<T> {
    /// Shape invariant: exactly sixteen entries.
    pub open spec fn wf(&self) -> bool {
        self@.len() == 16
    }
}

impl<T: Copy> Matrix4x4<T> {
    /// Builds the matrix from its sixteen entries in row-major order.
    pub fn new(data: Vec<T>) -> (m: Matrix4x4<T>)
        requires
            data@.len() == 16,
        ensures
            m@ == data@,
    {
        Matrix4x4 { data }
    }

    /// The entry at (`y`, `x`).
    pub fn get(&self, y: usize, x: usize) -> (r: T)
        requires
            self.wf(),
            y < 4,
            x < 4,
        ensures
            r == self@[y * 4 + x],
    {
        let i = to_index(4, y, x);
        self.data[i]
    }

    /// A fresh matrix with the rows and columns exchanged: entry (`y`, `x`)
    /// of the result is entry (`x`, `y`) of the original.
    pub fn transpose(self) -> (r: Matrix4x4<T>)
        requires
            self.wf(),
        ensures
            r@ == transpose_seq(self@),
            r.wf(),
    {
        let ghost target = transpose_seq(self@);
        let mut data: Vec<T> = Vec::new();
        for y in 0..4usize
            invariant
                self.wf(),
                data@.len() == y * 4,
                forall|i: int| 0 <= i < data@.len() ==> data@[i] == target[i],
                target == transpose_seq(self@),
        {
            for x in 0..4usize
                invariant
                    self.wf(),
                    y < 4,
                    data@.len() == y * 4 + x,
                    forall|i: int| 0 <= i < data@.len() ==> data@[i] == target[i],
                    target == transpose_seq(self@),
            {
                data.push(self.get(x, y));
                proof {
                    lemma_layout_round_trip(4, y as int, x as int);
                    assert(data@[y * 4 + x] == target[y * 4 + x]);
                }
            }
        }
        let r = Matrix4x4 { data };
        proof {
            assert(r@ =~= target);
        }
        r
    }

    /// The order-3 matrix left when row `row` and column `col` are deleted;
    /// the surviving entries keep their relative row and column order.
    pub fn submatrix(&self, row: usize, col: usize) -> (r: Matrix3x3<T>)
        requires
            self.wf(),
            row < 4,
            col < 4,
        ensures
            r@ == submatrix_seq(self@, 4, row as int, col as int),
            r.wf(),
    {
        let ghost target = submatrix_seq(self@, 4, row as int, col as int);
        let mut data: Vec<T> = Vec::new();
        for y in 0..3usize
            invariant
                self.wf(),
                row < 4,
                col < 4,
                data@.len() == y * 3,
                forall|i: int| 0 <= i < data@.len() ==> data@[i] == target[i],
                target == submatrix_seq(self@, 4, row as int, col as int),
        {
            for x in 0..3usize
                invariant
                    self.wf(),
                    row < 4,
                    col < 4,
                    y < 3,
                    data@.len() == y * 3 + x,
                    forall|i: int| 0 <= i < data@.len() ==> data@[i] == target[i],
                    target == submatrix_seq(self@, 4, row as int, col as int),
            {
                let sy = kept_index(row, y);
                let sx = kept_index(col, x);
                data.push(self.get(sy, sx));
                proof {
                    lemma_layout_round_trip(3, y as int, x as int);
                    assert(data@[y * 3 + x] == target[y * 3 + x]);
                }
            }
        }
        let r = Matrix3x3::new(data);
        proof {
            assert(r@ =~= target);
        }
        r
    }
}

/// Whether the flat row-major offset `i` of a 4 x 4 matrix lies on the
/// main diagonal: the offset of (`y`, `y`) is `y * 5`, so the in-range
/// diagonal offsets are exactly the multiples of 5.
pub open spec fn on_diagonal(i: int) -> bool {
    i % 5 == 0
}

/// The offset of (`y`, `x`) lies on the main diagonal exactly when
/// `y == x`.
pub proof fn lemma_on_diagonal(y: int, x: int)
    requires
        0 <= y < 4,
        0 <= x < 4,
    ensures
        on_diagonal(y * 4 + x) <==> y == x,
{
    if y == x {
        vstd::arithmetic::div_mod::lemma_mod_multiples_basic(y, 5);
    } else if on_diagonal(y * 4 + x) {
        vstd::arithmetic::div_mod::lemma_fundamental_div_mod(y * 4 + x, 5);
    }
}

impl<T: Scalar> Matrix4x4<T> {
    /// The matrix whose sixteen entries are all the scalar zero.
    pub fn zero() -> (m: Matrix4x4<T>)
        ensures
            m.wf(),
            forall|i: int| 0 <= i < 16 ==> m@[i] == T::spec_zero(),
    {
        let v = T::zero();
        let mut data: Vec<T> = Vec::new();
        for i in 0..16usize
            invariant
                data@.len() == i,
                v == T::spec_zero(),
                forall|k: int| 0 <= k < data@.len() ==> data@[k] == v,
        {
            data.push(v);
        }
        Matrix4x4 { data }
    }

    /// The identity matrix: the scalar one on the main diagonal — offset
    /// `i * 5` for each `i` below 4 — and the scalar zero elsewhere.
    pub fn identity() -> (m: Matrix4x4<T>)
        ensures
            m.wf(),
            forall|i: int|
                0 <= i < 16 ==> m@[i] == (if on_diagonal(i) {
                    T::spec_one()
                } else {
                    T::spec_zero()
                }),
    {
        let mut m = Self::zero();
        let o = T::one();
        for i in 0..4usize
            invariant
                m.wf(),
                o == T::spec_one(),
                forall|k: int|
                    #![trigger m@[k]]
                    0 <= k < 16 && on_diagonal(k) && k < 5 * i ==> m@[k] == T::spec_one(),
                forall|k: int|
                    #![trigger m@[k]]
                    0 <= k < 16 && !(on_diagonal(k) && k < 5 * i) ==> m@[k] == T::spec_zero(),
        {
            let j = to_index(4, i, i);
            m.data[j] = o;
            proof {
                vstd::arithmetic::div_mod::lemma_mod_multiples_basic(i as int, 5);
            }
        }
        m
    }

    /// The minor at (`row`, `col`): the determinant of the submatrix that
    /// deletes that row and column.
    pub fn minor(&self, row: usize, col: usize) -> (r: T)
        requires
            self.wf(),
            row < 4,
            col < 4,
        ensures
            r == minor4_of(self@, row as int, col as int),
    {
        self.submatrix(row, col).det()
    }

    /// The cofactor at (`row`, `col`): the minor, negated exactly when
    /// `row + col` is odd — the same checkerboard sign pattern as at every
    /// order, starting with `+` at (0, 0).
    pub fn cofactor(&self, row: usize, col: usize) -> (r: T)
        requires
            self.wf(),
            row < 4,
            col < 4,
        ensures
            r == cofactor4_of(self@, row as int, col as int),
    {
        let m = self.minor(row, col);
        if sign_flips(row, col) {
            m.neg()
        } else {
            m
        }
    }

    /// The determinant, by Laplace expansion along row 0: the sum, seeded
    /// with zero and folded left, of entry (0, col) times the cofactor at
    /// (0, col) for each column in turn.
    pub fn det(&self) -> (r: T)
        requires
            self.wf(),
        ensures
            r == det4_of(self@),
    {
        let mut acc = T::zero();
        for i in 0..4usize
            invariant
                self.wf(),
                acc == det4_fold(self@, i as int),
        {
            acc = acc.add(self.get(0, i).mul(self.cofactor(0, i)));
        }
        acc
    }

    /// Whether the determinant meets the scalar's precision threshold, and
    /// so whether [`Matrix4x4::inverse`] will succeed.
    pub fn is_invertible(&self) -> (r: bool)
        requires
            self.wf(),
        ensures
            r == det4_of(self@).spec_meets_precision(),
    {
        self.is_invertible_with_det().0
    }

    /// The determinant together with the invertibility verdict on it, so
    /// that inversion computes the determinant once.
    fn is_invertible_with_det(&self) -> (r: (bool, T))
        requires
            self.wf(),
        ensures
            r.0 == det4_of(self@).spec_meets_precision(),
            r.1 == det4_of(self@),
    {
        let det = self.det();
        (det.meets_precision(), det)
    }

    /// The inverse by the adjugate method, or [`NotInvertibleError`] when
    /// the determinant fails the precision threshold. On success, the
    /// cofactor at (`row`, `col`) of the original, divided by the
    /// determinant, is stored at (`col`, `row`) of the result — the
    /// transposed assignment that turns the cofactor matrix into the
    /// adjugate. Every cofactor is read from the original matrix, which is
    /// left untouched.
    pub fn inverse(self) -> (r: Result<Matrix4x4<T>, NotInvertibleError>)
        requires
            self.wf(),
        ensures
            r is Ok <==> det4_of(self@).spec_meets_precision(),
            r matches Ok(m) ==> m.wf() && forall|i: int|
                0 <= i < 16 ==> m@[i] == cofactor4_of(self@, i % 4, i / 4).spec_div(
                    det4_of(self@),
                ),
    {
        let (invertible, det) = self.is_invertible_with_det();
        if !invertible {
            return Err(NotInvertibleError);
        }
        let mut out = Self::zero();
        for y in 0..4usize
            invariant
                self.wf(),
                out.wf(),
                det == det4_of(self@),
                forall|k: int|
                    #![trigger out@[k]]
                    0 <= k < 16 && (k % 4) < y ==> out@[k] == cofactor4_of(self@, k % 4, k / 4)
                        .spec_div(det4_of(self@)),
        {
            for x in 0..4usize
                invariant
                    self.wf(),
                    out.wf(),
                    y < 4,
                    det == det4_of(self@),
                    forall|k: int|
                        #![trigger out@[k]]
                        0 <= k < 16 && ((k % 4) < y || ((k % 4) == y && k / 4 < x)) ==> out@[k]
                            == cofactor4_of(self@, k % 4, k / 4).spec_div(det4_of(self@)),
            {
                let c = self.cofactor(y, x);
                let i = to_index(4, x, y);
                out.data[i] = c.div(det);
                proof {
                    lemma_layout_round_trip(4, x as int, y as int);
                }
            }
        }
        Ok(out)
    }

    /// The matrix product: entry (`y`, `x`) of the result is the dot
    /// product of row `y` of `self` with column `x` of `rhs`, each sum
    /// seeded with zero and folded left over the four terms in column
    /// order.
    pub fn mul(self, rhs: Matrix4x4<T>) -> (r: Matrix4x4<T>)
        requires
            self.wf(),
            rhs.wf(),
        ensures
            r.wf(),
            forall|i: int| 0 <= i < 16 ==> r@[i] == product_entry(self@, rhs@, i / 4, i % 4),
    {
        let mut data: Vec<T> = Vec::new();
        for y in 0..4usize
            invariant
                self.wf(),
                rhs.wf(),
                data@.len() == y * 4,
                forall|i: int|
                    0 <= i < data@.len() ==> data@[i] == product_entry(self@, rhs@, i / 4, i % 4),
        {
            for x in 0..4usize
                invariant
                    self.wf(),
                    rhs.wf(),
                    y < 4,
                    data@.len() == y * 4 + x,
                    forall|i: int|
                        0 <= i < data@.len() ==> data@[i] == product_entry(
                            self@,
                            rhs@,
                            i / 4,
                            i % 4,
                        ),
            {
                let mut acc = T::zero();
                for k in 0..4usize
                    invariant
                        self.wf(),
                        rhs.wf(),
                        y < 4,
                        x < 4,
                        acc == product_fold(self@, rhs@, y as int, x as int, k as int),
                {
                    acc = acc.add(self.get(y, k).mul(rhs.get(k, x)));
                }
                data.push(acc);
                proof {
                    lemma_layout_round_trip(4, y as int, x as int);
                }
            }
        }
        Matrix4x4 { data }
    }

    /// The dot product of row `y` with the tuple taken as the column
    /// vector (x, y, z, w), folded left without a seed, exactly in that
    /// component order.
    fn row_dot(&self, y: usize, t: &Tuple4<T>) -> (r: T)
        requires
            self.wf(),
            y < 4,
        ensures
            r == tuple_dot(self@, y as int, *t),
    {
        self.get(y, 0).mul(t.x).add(self.get(y, 1).mul(t.y)).add(self.get(y, 2).mul(t.z)).add(
            self.get(y, 3).mul(t.w),
        )
    }

    /// The matrix applied to a homogeneous tuple treated as a column
    /// vector: component `i` of the result is the dot product of row `i`
    /// with the tuple.
    pub fn mul_tuple(self, rhs: Tuple4<T>) -> (r: Tuple4<T>)
        requires
            self.wf(),
        ensures
            r.x == tuple_dot(self@, 0, rhs),
            r.y == tuple_dot(self@, 1, rhs),
            r.z == tuple_dot(self@, 2, rhs),
            r.w == tuple_dot(self@, 3, rhs),
    {
        Tuple4::new(
            self.row_dot(0, &rhs),
            self.row_dot(1, &rhs),
            self.row_dot(2, &rhs),
            self.row_dot(3, &rhs),
        )
    }
}

} // verus!
