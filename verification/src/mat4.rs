//! A plain 4x4 column-major matrix container.

use vstd::prelude::*;

verus! {

use crate::vec4::Vector4;

/// A 4x4 matrix as four column vectors.
#[derive(Clone, Copy, Debug, PartialEq, Eq)]
pub struct Mat4 {
    pub cols: [Vector4; 4],
}

impl View for Mat4 {
    type V = ((int, int, int, int), (int, int, int, int), (int, int, int, int), (int, int, int, int));

    open spec fn view(&self) -> (
        (int, int, int, int),
        (int, int, int, int),
        (int, int, int, int),
        (int, int, int, int),
    ) {
        (self.cols[0]@, self.cols[1]@, self.cols[2]@, self.cols[3]@)
    }
}

impl Mat4 {
    /// Builds from four column vectors.
    pub fn new(col1: Vector4, col2: Vector4, col3: Vector4, col4: Vector4) -> (r: Self)
        ensures
            r@ == (col1@, col2@, col3@, col4@),
    {
        Mat4 { cols: [col1, col2, col3, col4] }
    }
}

} // verus!
