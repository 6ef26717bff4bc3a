//! A plain 2x2 column-major matrix, with the one operation the rotor
//! algebra needs from it: applying it to a vector.

use vstd::prelude::*;

verus! {

use crate::fixed::{SCALE, VEC_BOUND, div_floor, lemma_mul_bound};
use crate::vec2::{Vector2, vec2_ok};

/// Largest matrix entry magnitude accepted by `apply` (16 units).
/// Rotation matrices keep every entry within one unit.
pub const MAT_BOUND: i64 = 1048576;

/// True when `x` is an acceptable matrix entry.
pub open spec fn mat_ok(x: int) -> bool {
    -MAT_BOUND <= x <= MAT_BOUND
}

/// A 2x2 matrix as two column vectors.
#[derive(Clone, Copy, Debug, PartialEq, Eq)]
pub struct Mat2 {
    pub cols: [Vector2; 2],
}

impl View for Mat2 {
    type V = ((int, int), (int, int));

    open spec fn view(&self) -> ((int, int), (int, int)) {
        (self.cols[0]@, self.cols[1]@)
    }
}

/// The matrix-vector product, columns weighted by the vector's components.
pub open spec fn mat2_apply(m: ((int, int), (int, int)), v: (int, int)) -> (int, int) {
    (m.0.0 * v.0 + m.1.0 * v.1, m.0.1 * v.0 + m.1.1 * v.1)
}

/// True when every entry of `m` is an acceptable matrix entry.
pub open spec fn mat2_ok(m: ((int, int), (int, int))) -> bool {
    mat_ok(m.0.0) && mat_ok(m.0.1) && mat_ok(m.1.0) && mat_ok(m.1.1)
}

impl Mat2 {
    /// Builds from two column vectors.
    pub fn new(col1: Vector2, col2: Vector2) -> (r: Self)
        ensures
            r@ == (col1@, col2@),
    {
        Mat2 { cols: [col1, col2] }
    }

    /// Applies the matrix to a vector.
    pub fn apply(&self, v: Vector2) -> (r: Vector2)
        requires
            mat2_ok(self@),
            vec2_ok(v@),
        ensures
            r@.0 == mat2_apply(self@, v@).0 / SCALE as int,
            r@.1 == mat2_apply(self@, v@).1 / SCALE as int,
    {
        proof {
            lemma_mul_bound(self@.0.0, v@.0, MAT_BOUND as int, VEC_BOUND as int);
            lemma_mul_bound(self@.0.1, v@.0, MAT_BOUND as int, VEC_BOUND as int);
            lemma_mul_bound(self@.1.0, v@.1, MAT_BOUND as int, VEC_BOUND as int);
            lemma_mul_bound(self@.1.1, v@.1, MAT_BOUND as int, VEC_BOUND as int);
        }
        let x: i64 = div_floor(self.cols[0].x * v.x + self.cols[1].x * v.y, SCALE);
        let y: i64 = div_floor(self.cols[0].y * v.x + self.cols[1].y * v.y, SCALE);
        Vector2 { x, y }
    }
}

} // verus!
