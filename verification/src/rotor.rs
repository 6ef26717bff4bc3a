//! The shared contract of the rotor types.

use vstd::prelude::*;

verus! {

/// What every rotor offers: magnitude and normalization over the
/// `(scalar, bivector)` element, reversal, rotor-by-rotor transformation,
/// vector rotation, and conversion to an equivalent rotation matrix.
pub trait Rotor: Sized {
    /// The vector type the rotor rotates.
    type Vector;

    /// The matrix type the rotor converts into.
    type Matrix;

    /// Components small enough for the fixed-point product formulas.
    spec fn bounded(&self) -> bool;

    /// Distinct from the zero element, so normalization is defined.
    spec fn nonzero(&self) -> bool;

    /// Vector components small enough for the rotation formulas.
    spec fn vec_bounded(v: Self::Vector) -> bool;

    /// The Euclidean norm of the `(scalar, bivector)` element.
    fn mag(&self) -> i64
        requires
            self.bounded(),
    ;

    /// The sum of squared components; avoids the square root.
    fn mag_sq(&self) -> i64
        requires
            self.bounded(),
    ;

    /// The componentwise product summed; bilinear and symmetric.
    fn dot(&self, other: Self) -> i64
        requires
            self.bounded(),
            other.bounded(),
    ;

    /// Rescales the components to magnitude one, in place. Undefined on
    /// the zero element, which is excluded.
    fn normalize(&mut self)
        requires
            old(self).bounded(),
            old(self).nonzero(),
    ;

    /// A normalized copy.
    fn normalized(&self) -> Self
        requires
            self.bounded(),
            self.nonzero(),
    ;

    /// Negates the bivector part: the algebraic conjugate, which is the
    /// inverse rotation for a unit rotor.
    fn reverse(&mut self)
        requires
            old(self).bounded(),
    ;

    /// A reversed copy.
    fn reversed(&self) -> Self
        requires
            self.bounded(),
    ;

    /// Transforms this rotor by `other`: the sandwich
    /// `other * self * reverse(other)`.
    fn rotate_by(&mut self, other: Self)
        requires
            old(self).bounded(),
            other.bounded(),
    ;

    /// A copy transformed by `other`.
    fn rotated_by(&self, other: Self) -> Self
        requires
            self.bounded(),
            other.bounded(),
    ;

    /// Rotates a vector in place by the double-sided sandwich product.
    fn rotate_vec(&self, vec: &mut Self::Vector)
        requires
            self.bounded(),
            Self::vec_bounded(*old(vec)),
    ;

    /// The rotation matrix equivalent to this rotor.
    fn into_matrix(&self) -> Self::Matrix
        requires
            self.bounded(),
    ;
}

} // verus!
