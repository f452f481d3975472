//! The homogeneous four-component tuple consumed and produced by
//! matrix-tuple multiplication: an (x, y, z, w) column vector.

use vstd::prelude::*;

verus! {

/// A homogeneous tuple: four named components, compared by value.
#[derive(Debug, Clone, Copy, PartialEq)]
pub struct Tuple4<T> {
    pub x: T,
    pub y: T,
    pub z: T,
    pub w: T,
}

impl<T: Copy> Tuple4<T> {
    /// Builds the tuple (`x`, `y`, `z`, `w`).
    pub fn new(x: T, y: T, z: T, w: T) -> (t: Tuple4<T>)
        ensures
            t.x == x,
            t.y == y,
            t.z == z,
            t.w == w,
    {
        Tuple4 { x, y, z, w }
    }
}

} // verus!
