//! The shared contract of the vector collaborators consumed by the rotor
//! algebra: dot, wedge and geometric products, magnitude, normalization.

use vstd::prelude::*;

verus! {

/// What the rotor algebra needs from a vector type. The wedge product
/// yields the bivector of the spanned plane; the geometric product packs
/// dot and wedge into a rotor.
pub trait Vector: Sized {
    /// The bivector type the wedge product produces.
    type Bivec;

    /// The rotor type the geometric product produces.
    type Rotor;

    /// Components small enough for the fixed-point product formulas.
    spec fn bounded(&self) -> bool;

    /// Distinct from the zero vector, so normalization is defined.
    spec fn nonzero(&self) -> bool;

    /// The Euclidean norm of the components.
    fn mag(&self) -> i64
        requires
            self.bounded(),
    ;

    /// The sum of squared components; avoids the square root.
    fn mag_sq(&self) -> i64
        requires
            self.bounded(),
    ;

    /// The componentwise product summed; bilinear and symmetric.
    fn dot(&self, other: Self) -> i64
        requires
            self.bounded(),
            other.bounded(),
    ;

    /// The antisymmetric product: the oriented plane the two vectors span.
    fn wedge(&self, other: Self) -> Self::Bivec
        requires
            self.bounded(),
            other.bounded(),
    ;

    /// The geometric product: dot plus wedge, packed as a rotor.
    fn geom(&self, other: Self) -> Self::Rotor
        requires
            self.bounded(),
            other.bounded(),
    ;

    /// Rescales the components to magnitude one, in place. Undefined on
    /// the zero vector, which is excluded.
    fn normalize(&mut self)
        requires
            old(self).bounded(),
            old(self).nonzero(),
    ;

    /// A normalized copy.
    fn normalized(&self) -> Self
        requires
            self.bounded(),
            self.nonzero(),
    ;
}

} // verus!
