//! The arithmetic interface that matrix entries satisfy.
//!
//! Determinants, cofactors, products and inverses are built from the
//! operations below and from nothing else, so a matrix over any `Scalar`
//! runs the same verified expansion. Each executable operation is pinned to
//! a specification-level counterpart that the implementation defines, so
//! every matrix contract can state its result exactly as a fold of the
//! implementation's own arithmetic. The trait fixes no arithmetic laws
//! beyond that — an implementation over approximate numbers could not
//! honour exact ones — but it does promise totality: every operation
//! returns for every pair of operands.

use vstd::prelude::*;

verus! {

/// A matrix entry: a copyable value with ring-like operations, division,
/// and the numeric-precision policy used by the invertibility test. Each
/// operation returns exactly what its `spec_` counterpart names.
pub trait Scalar: Copy {
    /// What the additive identity is.
    spec fn spec_zero() -> Self;

    /// What the multiplicative identity is.
    spec fn spec_one() -> Self;

    /// What addition returns.
    spec fn spec_add(self, other: Self) -> Self;

    /// What subtraction returns.
    spec fn spec_sub(self, other: Self) -> Self;

    /// What multiplication returns.
    spec fn spec_mul(self, other: Self) -> Self;

    /// What division returns.
    spec fn spec_div(self, other: Self) -> Self;

    /// What the additive inverse is.
    spec fn spec_neg(self) -> Self;

    /// Which values are far enough from zero to serve as divisors.
    spec fn spec_meets_precision(self) -> bool;

    /// The additive identity, used to seed sums and to fill the zero matrix.
    fn zero() -> (r: Self)
        ensures
            r == Self::spec_zero(),
    ;

    /// The multiplicative identity, placed on the diagonal of the identity
    /// matrix.
    fn one() -> (r: Self)
        ensures
            r == Self::spec_one(),
    ;

    /// Addition. Must be total: no panic, whatever the operands.
    fn add(self, other: Self) -> (r: Self)
        ensures
            r == self.spec_add(other),
    ;

    /// Subtraction. Must be total.
    fn sub(self, other: Self) -> (r: Self)
        ensures
            r == self.spec_sub(other),
    ;

    /// Multiplication. Must be total.
    fn mul(self, other: Self) -> (r: Self)
        ensures
            r == self.spec_mul(other),
    ;

    /// Division, used only to divide cofactors by a determinant that has
    /// already passed [`Scalar::meets_precision`]. Must still be total for
    /// every divisor.
    fn div(self, other: Self) -> (r: Self)
        ensures
            r == self.spec_div(other),
    ;

    /// Additive inverse, used for the checkerboard cofactor sign.
    fn neg(self) -> (r: Self)
        ensures
            r == self.spec_neg(),
    ;

    /// Whether this value is far enough from zero to serve as a divisor:
    /// the invertibility policy. A determinant passes exactly when the
    /// matrix counts as invertible.
    fn meets_precision(self) -> (r: bool)
        ensures
            r == self.spec_meets_precision(),
    ;
}

/// Exact integer entries. Addition, subtraction and multiplication wrap on
/// overflow; division is checked, returning zero both for a zero divisor —
/// which inversion never reaches, because such a determinant fails
/// [`Scalar::meets_precision`] — and for the one overflowing quotient,
/// `i64::MIN` divided by `-1`.
impl Scalar for i64 {
    open spec fn spec_zero() -> i64 {
        0
    }

    open spec fn spec_one() -> i64 {
        1
    }

    open spec fn spec_add(self, other: i64) -> i64 {
        self.wrapping_add(other)
    }

    open spec fn spec_sub(self, other: i64) -> i64 {
        self.wrapping_sub(other)
    }

    open spec fn spec_mul(self, other: i64) -> i64 {
        self.wrapping_mul(other)
    }

    open spec fn spec_div(self, other: i64) -> i64 {
        match self.checked_div(other) {
            Some(q) => q,
            None => 0,
        }
    }

    open spec fn spec_neg(self) -> i64 {
        (0i64).wrapping_sub(self)
    }

    open spec fn spec_meets_precision(self) -> bool {
        self != 0
    }

    fn zero() -> Self {
        0
    }

    fn one() -> Self {
        1
    }

    fn add(self, other: Self) -> Self {
        self.wrapping_add(other)
    }

    fn sub(self, other: Self) -> Self {
        self.wrapping_sub(other)
    }

    fn mul(self, other: Self) -> Self {
        self.wrapping_mul(other)
    }

    fn div(self, other: Self) -> Self {
        match self.checked_div(other) {
            Some(q) => q,
            None => 0,
        }
    }

    fn neg(self) -> Self {
        (0i64).wrapping_sub(self)
    }

    fn meets_precision(self) -> bool {
        self != 0
    }
}

/// Integer multiplication through the scalar interface is exact whenever
/// the true product fits in the type: wrapping never fires there. With
/// this, every matrix contract over integer entries computes the exact
/// ring value as long as no intermediate product overflows.
pub proof fn lemma_i64_mul_exact(a: i64, b: i64)
    requires
        i64::MIN <= (a as int) * (b as int) <= i64::MAX,
    ensures
        <i64 as Scalar>::spec_mul(a, b) == (a as int) * (b as int),
{
    let r: int = 0x1_0000_0000_0000_0000;
    let p: int = (a as int) * (b as int);
    if p >= 0 {
        vstd::arithmetic::div_mod::lemma_small_mod(p as nat, 0x1_0000_0000_0000_0000nat);
    } else {
        assert((r + p) % r == p % r) by {
            vstd::arithmetic::div_mod::lemma_mod_multiples_vanish(1, p, r);
        }
        vstd::arithmetic::div_mod::lemma_small_mod((p + r) as nat, 0x1_0000_0000_0000_0000nat);
    }
}

/// For integer entries the exact arithmetic laws behind the identity
/// matrix hold: one is neutral for multiplication, zero annihilates it,
/// and zero is neutral for addition — none of the operations wraps on
/// these operands.
pub proof fn lemma_i64_identity_ops(v: i64)
    ensures
        <i64 as Scalar>::spec_mul(v, 1i64) == v,
        <i64 as Scalar>::spec_mul(1i64, v) == v,
        <i64 as Scalar>::spec_mul(v, 0i64) == 0i64,
        <i64 as Scalar>::spec_mul(0i64, v) == 0i64,
        <i64 as Scalar>::spec_add(0i64, v) == v,
        <i64 as Scalar>::spec_add(v, 0i64) == v,
{
    lemma_i64_mul_exact(v, 1i64);
    lemma_i64_mul_exact(1i64, v);
    lemma_i64_mul_exact(v, 0i64);
    lemma_i64_mul_exact(0i64, v);
}

} // verus!
