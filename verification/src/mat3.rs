//! A plain 3x3 column-major matrix, with the one operation the rotor
//! algebra needs from it: applying it to a vector.

use vstd::prelude::*;

verus! {

use crate::fixed::{SCALE, VEC_BOUND, div_floor, lemma_mul_bound};
use crate::mat2::mat_ok;
use crate::vec3::{Vector3, vec3_ok};

/// A 3x3 matrix as three column vectors.
#[derive(Clone, Copy, Debug, PartialEq, Eq)]
pub struct Mat3 {
    pub cols: [Vector3; 3],
}

impl View for Mat3 {
    type V = ((int, int, int), (int, int, int), (int, int, int));

    open spec fn view(&self) -> ((int, int, int), (int, int, int), (int, int, int)) {
        (self.cols[0]@, self.cols[1]@, self.cols[2]@)
    }
}

/// The matrix-vector product, columns weighted by the vector's components.
pub open spec fn mat3_apply(
    m: ((int, int, int), (int, int, int), (int, int, int)),
    v: (int, int, int),
) -> (int, int, int) {
    (
        m.0.0 * v.0 + m.1.0 * v.1 + m.2.0 * v.2,
        m.0.1 * v.0 + m.1.1 * v.1 + m.2.1 * v.2,
        m.0.2 * v.0 + m.1.2 * v.1 + m.2.2 * v.2,
    )
}

/// True when every entry of `m` is an acceptable matrix entry.
pub open spec fn mat3_ok(m: ((int, int, int), (int, int, int), (int, int, int))) -> bool {
    mat_ok(m.0.0) && mat_ok(m.0.1) && mat_ok(m.0.2) && mat_ok(m.1.0) && mat_ok(m.1.1) && mat_ok(
        m.1.2,
    ) && mat_ok(m.2.0) && mat_ok(m.2.1) && mat_ok(m.2.2)
}

impl Mat3 {
    /// Builds from three column vectors.
    pub fn new(col1: Vector3, col2: Vector3, col3: Vector3) -> (r: Self)
        ensures
            r@ == (col1@, col2@, col3@),
    {
        Mat3 { cols: [col1, col2, col3] }
    }

    /// Applies the matrix to a vector.
    pub fn apply(&self, v: Vector3) -> (r: Vector3)
        requires
            mat3_ok(self@),
            vec3_ok(v@),
        ensures
            r@.0 == mat3_apply(self@, v@).0 / SCALE as int,
            r@.1 == mat3_apply(self@, v@).1 / SCALE as int,
            r@.2 == mat3_apply(self@, v@).2 / SCALE as int,
    {
        proof {
            lemma_mul_bound(self@.0.0, v@.0, crate::mat2::MAT_BOUND as int, VEC_BOUND as int);
            lemma_mul_bound(self@.0.1, v@.0, crate::mat2::MAT_BOUND as int, VEC_BOUND as int);
            lemma_mul_bound(self@.0.2, v@.0, crate::mat2::MAT_BOUND as int, VEC_BOUND as int);
            lemma_mul_bound(self@.1.0, v@.1, crate::mat2::MAT_BOUND as int, VEC_BOUND as int);
            lemma_mul_bound(self@.1.1, v@.1, crate::mat2::MAT_BOUND as int, VEC_BOUND as int);
            lemma_mul_bound(self@.1.2, v@.1, crate::mat2::MAT_BOUND as int, VEC_BOUND as int);
            lemma_mul_bound(self@.2.0, v@.2, crate::mat2::MAT_BOUND as int, VEC_BOUND as int);
            lemma_mul_bound(self@.2.1, v@.2, crate::mat2::MAT_BOUND as int, VEC_BOUND as int);
            lemma_mul_bound(self@.2.2, v@.2, crate::mat2::MAT_BOUND as int, VEC_BOUND as int);
        }
        let x: i64 = div_floor(
            self.cols[0].x * v.x + self.cols[1].x * v.y + self.cols[2].x * v.z,
            SCALE,
        );
        let y: i64 = div_floor(
            self.cols[0].y * v.x + self.cols[1].y * v.y + self.cols[2].y * v.z,
            SCALE,
        );
        let z: i64 = div_floor(
            self.cols[0].z * v.x + self.cols[1].z * v.y + self.cols[2].z * v.z,
            SCALE,
        );
        Vector3 { x, y, z }
    }
}

} // verus!
