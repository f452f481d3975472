//! Dense, fixed-size square matrix algebra for orders 2, 3 and 4.
//!
//! The three matrix types are generic over their entry type. Arithmetic on
//! the entries goes through the [`scalar::Scalar`] trait, whose every
//! operation is pinned to a specification-level counterpart, so each matrix
//! operation — element access, transposition, submatrix extraction,
//! minor, cofactor, determinant, invertibility, inversion and the two
//! multiplications — carries a contract that states its result exactly,
//! entry for entry, as a fold of the entry type's own arithmetic. The same
//! verified algorithms serve exact integer entries as well as approximate
//! ones supplied by a caller.

pub mod layout;
pub mod matrix2;
pub mod matrix3;
pub mod matrix4;
pub mod scalar;
pub mod tuple;
