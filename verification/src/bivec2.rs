//! The 2D bivector: a single oriented-area coefficient on the one plane
//! `x ^ y`, in 16.16 fixed point.

use vstd::prelude::*;

verus! {

use vstd::arithmetic::div_mod::lemma_div_multiples_vanish;
use vstd::math::abs;
use crate::bivector::Bivector;
use crate::fixed::{SCALE, COMP_BOUND, comp_ok, div_floor, div_signed, lemma_mul_bound};

/// An oriented area element in the plane. `xy` counts steps of `1 / SCALE`.
#[derive(Clone, Copy, Debug, PartialEq, Eq, Structural)]
pub struct Bivector2 {
    pub xy: i64,
}

impl View for Bivector2 {
    type V = int;

    open spec fn view(&self) -> int {
        self.xy as int
    }
}

impl Bivector2 {
    /// Builds from a raw plane coefficient; no validation.
    pub fn new(xy: i64) -> (r: Self)
        ensures
            r@ == xy as int,
    {
        Bivector2 { xy }
    }

    /// The additive identity.
    pub fn zero() -> (r: Self)
        ensures
            r@ == 0,
    {
        Bivector2 { xy: 0 }
    }

    /// One whole unit of oriented area.
    pub fn one() -> (r: Self)
        ensures
            r@ == SCALE as int,
    {
        Bivector2 { xy: SCALE }
    }

    /// Componentwise sum.
    pub fn add(self, rhs: Self) -> (r: Self)
        requires
            i64::MIN <= self@ + rhs@ <= i64::MAX,
        ensures
            r@ == self@ + rhs@,
    {
        Bivector2 { xy: self.xy + rhs.xy }
    }

    /// Componentwise sum, in place.
    pub fn add_assign(&mut self, rhs: Self)
        requires
            i64::MIN <= old(self)@ + rhs@ <= i64::MAX,
        ensures
            final(self)@ == old(self)@ + rhs@,
    {
        self.xy = self.xy + rhs.xy;
    }

    /// Componentwise difference.
    pub fn sub(self, rhs: Self) -> (r: Self)
        requires
            i64::MIN <= self@ - rhs@ <= i64::MAX,
        ensures
            r@ == self@ - rhs@,
    {
        Bivector2 { xy: self.xy - rhs.xy }
    }

    /// Componentwise difference, in place.
    pub fn sub_assign(&mut self, rhs: Self)
        requires
            i64::MIN <= old(self)@ - rhs@ <= i64::MAX,
        ensures
            final(self)@ == old(self)@ - rhs@,
    {
        self.xy = self.xy - rhs.xy;
    }

    /// Componentwise negation.
    pub fn neg(self) -> (r: Self)
        requires
            self@ > i64::MIN,
        ensures
            r@ == -self@,
    {
        Bivector2 { xy: -self.xy }
    }

    /// Scales by the fixed-point factor `k`.
    pub fn scale(self, k: i64) -> (r: Self)
        requires
            comp_ok(self@),
            comp_ok(k as int),
        ensures
            r@ == self@ * k / SCALE as int,
    {
        proof {
            lemma_mul_bound(self.xy as int, k as int, COMP_BOUND as int, COMP_BOUND as int);
        }
        Bivector2 { xy: div_floor(self.xy * k, SCALE) }
    }

    /// Scales by the fixed-point factor `k`, in place.
    pub fn scale_assign(&mut self, k: i64)
        requires
            comp_ok(old(self)@),
            comp_ok(k as int),
        ensures
            final(self)@ == old(self)@ * k / SCALE as int,
    {
        proof {
            lemma_mul_bound(self.xy as int, k as int, COMP_BOUND as int, COMP_BOUND as int);
        }
        self.xy = div_floor(self.xy * k, SCALE);
    }

    /// Divides by the fixed-point factor `k`.
    pub fn div_scale(self, k: i64) -> (r: Self)
        requires
            comp_ok(self@),
            k != 0,
        ensures
            r@ == self@ * SCALE / k as int,
    {
        proof {
            lemma_mul_bound(self.xy as int, SCALE as int, COMP_BOUND as int, SCALE as int);
        }
        Bivector2 { xy: div_signed(self.xy * SCALE, k) }
    }

    /// Divides by the fixed-point factor `k`, in place.
    pub fn div_scale_assign(&mut self, k: i64)
        requires
            comp_ok(old(self)@),
            k != 0,
        ensures
            final(self)@ == old(self)@ * SCALE / k as int,
    {
        proof {
            lemma_mul_bound(self.xy as int, SCALE as int, COMP_BOUND as int, SCALE as int);
        }
        self.xy = div_signed(self.xy * SCALE, k);
    }

    /// Componentwise fixed-point product; an algebraic building block, not
    /// a geometric operation.
    pub fn mul(self, rhs: Self) -> (r: Self)
        requires
            comp_ok(self@),
            comp_ok(rhs@),
        ensures
            r@ == self@ * rhs@ / SCALE as int,
    {
        proof {
            lemma_mul_bound(self.xy as int, rhs.xy as int, COMP_BOUND as int, COMP_BOUND as int);
        }
        Bivector2 { xy: div_floor(self.xy * rhs.xy, SCALE) }
    }

    /// Componentwise fixed-point quotient.
    pub fn div(self, rhs: Self) -> (r: Self)
        requires
            comp_ok(self@),
            rhs@ != 0,
        ensures
            r@ == self@ * SCALE / rhs@,
    {
        proof {
            lemma_mul_bound(self.xy as int, SCALE as int, COMP_BOUND as int, SCALE as int);
        }
        Bivector2 { xy: div_signed(self.xy * SCALE, rhs.xy) }
    }
}

impl Bivector for Bivector2 {
    open spec fn bounded(&self) -> bool {
        comp_ok(self@)
    }

    open spec fn nonzero(&self) -> bool {
        self@ != 0
    }

    /// In 2D the norm over the single plane coefficient is its absolute
    /// value.
    fn mag(&self) -> (r: i64)
        ensures
            r == abs(self@),
    {
        if self.xy >= 0 {
            self.xy
        } else {
            -self.xy
        }
    }

    fn mag_sq(&self) -> (r: i64)
        ensures
            r == self@ * self@ / SCALE as int,
    {
        proof {
            lemma_mul_bound(self@, self@, COMP_BOUND as int, COMP_BOUND as int);
        }
        div_floor(self.xy * self.xy, SCALE)
    }

    fn dot(&self, other: Self) -> (r: i64)
        ensures
            r == self@ * other@ / SCALE as int,
    {
        proof {
            lemma_mul_bound(self@, other@, COMP_BOUND as int, COMP_BOUND as int);
        }
        div_floor(self.xy * other.xy, SCALE)
    }

    /// Dividing the one coefficient by its own absolute value lands
    /// exactly on plus or minus one unit.
    fn normalize(&mut self)
        ensures
            final(self)@ == (if old(self)@ > 0 {
                SCALE as int
            } else {
                -SCALE as int
            }),
    {
        let m: i64 = self.mag();
        proof {
            lemma_mul_bound(self@, SCALE as int, COMP_BOUND as int, SCALE as int);
            if self@ > 0 {
                lemma_div_multiples_vanish(SCALE as int, self@);
            } else {
                lemma_div_multiples_vanish(-SCALE as int, -self@);
            }
        }
        self.xy = div_floor(self.xy * SCALE, m);
    }

    fn normalized(&self) -> (r: Self)
        ensures
            r@ == (if self@ > 0 {
                SCALE as int
            } else {
                -SCALE as int
            }),
    {
        let mut v = *self;
        v.normalize();
        v
    }
}

} // verus!
