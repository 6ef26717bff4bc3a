//! The shared contract of the oriented-plane types.

use vstd::prelude::*;

verus! {

/// What every bivector offers: magnitude, dot product and normalization
/// over its plane coefficients.
pub trait Bivector: Sized {
    /// Components small enough for the fixed-point product formulas.
    spec fn bounded(&self) -> bool;

    /// Distinct from the zero element, so normalization is defined.
    spec fn nonzero(&self) -> bool;

    /// The Euclidean norm of the plane coefficients.
    fn mag(&self) -> i64
        requires
            self.bounded(),
    ;

    /// The sum of squared plane coefficients; avoids the square root.
    fn mag_sq(&self) -> i64
        requires
            self.bounded(),
    ;

    /// The componentwise product summed; bilinear and symmetric.
    fn dot(&self, other: Self) -> i64
        requires
            self.bounded(),
            other.bounded(),
    ;

    /// Rescales the coefficients to magnitude one, in place. Undefined
    /// on the zero element, which is excluded.
    fn normalize(&mut self)
        requires
            old(self).bounded(),
            old(self).nonzero(),
    ;

    /// A normalized copy.
    fn normalized(&self) -> Self
        requires
            self.bounded(),
            self.nonzero(),
    ;
}

} // verus!
