//! Row-major layout of a square matrix of a given order: the mapping between
//! a (row, column) pair and the flat offset `row * size + column`, the index
//! bookkeeping behind submatrix extraction, and the checkerboard sign rule
//! of the cofactor expansion.

use vstd::prelude::*;

verus! {

/// The source index that position `i` refers to once the row or column
/// numbered `removed` has been deleted: positions before the deleted one
/// keep their index, positions at or past it shift up by one.
pub open spec fn spec_kept(removed: int, i: int) -> int {
    if i < removed {
        i
    } else {
        i + 1
    }
}

/// The row-major contents left over when row `row` and column `col` are
/// deleted from a square matrix of order `size` with contents `s`: entry
/// (`y`, `x`) of the result is entry (`spec_kept(row, y)`, `spec_kept(col,
/// x)`) of the source, so the surviving rows and columns keep their
/// relative order.
pub open spec fn submatrix_seq<T>(s: Seq<T>, size: int, row: int, col: int) -> Seq<T> {
    Seq::new(
        (((size - 1) * (size - 1)) as nat),
        |i: int|
            s[spec_kept(row, i / (size - 1)) * size + spec_kept(col, i % (size - 1))],
    )
}

/// Flat row-major offset of entry (`y`, `x`) in a matrix of order `size`.
pub fn to_index(size: usize, y: usize, x: usize) -> (i: usize)
    requires
        y * size + x <= usize::MAX,
    ensures
        i == y * size + x,
{
    y * size + x
}

/// Row and column of the entry at flat offset `i` in a matrix of order
/// `size`; the inverse of [`to_index`].
pub fn to_yx(size: usize, i: usize) -> (r: (usize, usize))
    requires
        size > 0,
    ensures
        r.0 == i / size,
        r.1 == i % size,
        r.0 * size + r.1 == i,
{
    let y = i / size;
    let x = i % size;
    proof {
        vstd::arithmetic::div_mod::lemma_fundamental_div_mod(i as int, size as int);
    }
    (y, x)
}

/// Whether the cofactor at (`row`, `col`) flips the sign of the minor:
/// the checkerboard pattern that starts with `+` at (0, 0) and alternates
/// along every row and every column, at every matrix order alike.
pub open spec fn spec_sign_flips(row: int, col: int) -> bool {
    (row + col) % 2 == 1
}

/// Exec counterpart of [`spec_sign_flips`].
pub fn sign_flips(row: usize, col: usize) -> (r: bool)
    requires
        row + col <= usize::MAX,
    ensures
        r == spec_sign_flips(row as int, col as int),
{
    (row + col) % 2 == 1
}

/// Exec counterpart of [`spec_kept`].
pub fn kept_index(removed: usize, i: usize) -> (r: usize)
    requires
        i < usize::MAX,
    ensures
        r == spec_kept(removed as int, i as int),
{
    if i < removed {
        i
    } else {
        i + 1
    }
}

/// Round trip through the layout maps: the flat offset of the (row, column)
/// pair of any in-range offset is that offset again, and conversely.
pub proof fn lemma_layout_round_trip(size: int, y: int, x: int)
    requires
        size > 0,
        0 <= y,
        0 <= x < size,
    ensures
        (y * size + x) / size == y,
        (y * size + x) % size == x,
{
    vstd::arithmetic::mul::lemma_mul_is_commutative(y, size);
    vstd::arithmetic::div_mod::lemma_div_multiples_vanish_fancy(y, x, size);
    vstd::arithmetic::div_mod::lemma_mod_multiples_vanish(y, x, size);
    vstd::arithmetic::div_mod::lemma_small_mod(x as nat, size as nat);
}

} // verus!
