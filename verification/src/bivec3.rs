//! The 3D bivector: oriented-area coefficients on the three coordinate
//! planes `x ^ y`, `x ^ z` and `y ^ z`, in 16.16 fixed point.

use vstd::prelude::*;

verus! {

use crate::bivector::Bivector;
use crate::fixed::{
    SCALE, COMP_BOUND, comp_ok, div_floor, div_signed, isqrt, lemma_mul_bound, lemma_square_nonneg,
    sqrt_floor,
};

/// An oriented area element. Components count steps of `1 / SCALE`.
#[derive(Clone, Copy, Debug, PartialEq, Eq, Structural)]
pub struct Bivector3 {
    pub xy: i64,
    pub xz: i64,
    pub yz: i64,
}

impl View for Bivector3 {
    type V = (int, int, int);

    open spec fn view(&self) -> (int, int, int) {
        (self.xy as int, self.xz as int, self.yz as int)
    }
}

/// True when all three components are acceptable rotor components.
pub open spec fn bivec3_ok(b: (int, int, int)) -> bool {
    comp_ok(b.0) && comp_ok(b.1) && comp_ok(b.2)
}

/// The squared magnitude, unscaled.
pub open spec fn bivec3_mag_sq(b: (int, int, int)) -> int {
    b.0 * b.0 + b.1 * b.1 + b.2 * b.2
}

/// The dot product, unscaled.
pub open spec fn bivec3_dot(a: (int, int, int), b: (int, int, int)) -> int {
    a.0 * b.0 + a.1 * b.1 + a.2 * b.2
}

impl Bivector3 {
    /// Builds from raw plane coefficients; no validation.
    pub fn new(xy: i64, xz: i64, yz: i64) -> (r: Self)
        ensures
            r@ == (xy as int, xz as int, yz as int),
    {
        Bivector3 { xy, xz, yz }
    }

    /// The additive identity.
    pub fn zero() -> (r: Self)
        ensures
            r@ == (0int, 0int, 0int),
    {
        Bivector3 { xy: 0, xz: 0, yz: 0 }
    }

    /// One whole unit on each plane.
    pub fn one() -> (r: Self)
        ensures
            r@ == (SCALE as int, SCALE as int, SCALE as int),
    {
        Bivector3 { xy: SCALE, xz: SCALE, yz: SCALE }
    }

    /// Componentwise sum.
    pub fn add(self, rhs: Self) -> (r: Self)
        requires
            i64::MIN <= self@.0 + rhs@.0 <= i64::MAX,
            i64::MIN <= self@.1 + rhs@.1 <= i64::MAX,
            i64::MIN <= self@.2 + rhs@.2 <= i64::MAX,
        ensures
            r@ == (self@.0 + rhs@.0, self@.1 + rhs@.1, self@.2 + rhs@.2),
    {
        Bivector3 { xy: self.xy + rhs.xy, xz: self.xz + rhs.xz, yz: self.yz + rhs.yz }
    }

    /// Componentwise sum, in place.
    pub fn add_assign(&mut self, rhs: Self)
        requires
            i64::MIN <= old(self)@.0 + rhs@.0 <= i64::MAX,
            i64::MIN <= old(self)@.1 + rhs@.1 <= i64::MAX,
            i64::MIN <= old(self)@.2 + rhs@.2 <= i64::MAX,
        ensures
            final(self)@ == (old(self)@.0 + rhs@.0, old(self)@.1 + rhs@.1, old(self)@.2 + rhs@.2),
    {
        self.xy = self.xy + rhs.xy;
        self.xz = self.xz + rhs.xz;
        self.yz = self.yz + rhs.yz;
    }

    /// Componentwise difference.
    pub fn sub(self, rhs: Self) -> (r: Self)
        requires
            i64::MIN <= self@.0 - rhs@.0 <= i64::MAX,
            i64::MIN <= self@.1 - rhs@.1 <= i64::MAX,
            i64::MIN <= self@.2 - rhs@.2 <= i64::MAX,
        ensures
            r@ == (self@.0 - rhs@.0, self@.1 - rhs@.1, self@.2 - rhs@.2),
    {
        Bivector3 { xy: self.xy - rhs.xy, xz: self.xz - rhs.xz, yz: self.yz - rhs.yz }
    }

    /// Componentwise difference, in place.
    pub fn sub_assign(&mut self, rhs: Self)
        requires
            i64::MIN <= old(self)@.0 - rhs@.0 <= i64::MAX,
            i64::MIN <= old(self)@.1 - rhs@.1 <= i64::MAX,
            i64::MIN <= old(self)@.2 - rhs@.2 <= i64::MAX,
        ensures
            final(self)@ == (old(self)@.0 - rhs@.0, old(self)@.1 - rhs@.1, old(self)@.2 - rhs@.2),
    {
        self.xy = self.xy - rhs.xy;
        self.xz = self.xz - rhs.xz;
        self.yz = self.yz - rhs.yz;
    }

    /// Componentwise negation.
    pub fn neg(self) -> (r: Self)
        requires
            self@.0 > i64::MIN,
            self@.1 > i64::MIN,
            self@.2 > i64::MIN,
        ensures
            r@ == (-self@.0, -self@.1, -self@.2),
    {
        Bivector3 { xy: -self.xy, xz: -self.xz, yz: -self.yz }
    }

    /// Scales by the fixed-point factor `k`.
    pub fn scale(self, k: i64) -> (r: Self)
        requires
            bivec3_ok(self@),
            comp_ok(k as int),
        ensures
            r@ == (
                self@.0 * k / SCALE as int,
                self@.1 * k / SCALE as int,
                self@.2 * k / SCALE as int,
            ),
    {
        proof {
            lemma_mul_bound(self@.0, k as int, COMP_BOUND as int, COMP_BOUND as int);
            lemma_mul_bound(self@.1, k as int, COMP_BOUND as int, COMP_BOUND as int);
            lemma_mul_bound(self@.2, k as int, COMP_BOUND as int, COMP_BOUND as int);
        }
        Bivector3 {
            xy: div_floor(self.xy * k, SCALE),
            xz: div_floor(self.xz * k, SCALE),
            yz: div_floor(self.yz * k, SCALE),
        }
    }

    /// Scales by the fixed-point factor `k`, in place.
    pub fn scale_assign(&mut self, k: i64)
        requires
            bivec3_ok(old(self)@),
            comp_ok(k as int),
        ensures
            final(self)@ == (
                old(self)@.0 * k / SCALE as int,
                old(self)@.1 * k / SCALE as int,
                old(self)@.2 * k / SCALE as int,
            ),
    {
        proof {
            lemma_mul_bound(self@.0, k as int, COMP_BOUND as int, COMP_BOUND as int);
            lemma_mul_bound(self@.1, k as int, COMP_BOUND as int, COMP_BOUND as int);
            lemma_mul_bound(self@.2, k as int, COMP_BOUND as int, COMP_BOUND as int);
        }
        self.xy = div_floor(self.xy * k, SCALE);
        self.xz = div_floor(self.xz * k, SCALE);
        self.yz = div_floor(self.yz * k, SCALE);
    }

    /// Divides by the fixed-point factor `k`.
    pub fn div_scale(self, k: i64) -> (r: Self)
        requires
            bivec3_ok(self@),
            k != 0,
        ensures
            r@ == (
                self@.0 * SCALE / k as int,
                self@.1 * SCALE / k as int,
                self@.2 * SCALE / k as int,
            ),
    {
        proof {
            lemma_mul_bound(self@.0, SCALE as int, COMP_BOUND as int, SCALE as int);
            lemma_mul_bound(self@.1, SCALE as int, COMP_BOUND as int, SCALE as int);
            lemma_mul_bound(self@.2, SCALE as int, COMP_BOUND as int, SCALE as int);
        }
        Bivector3 {
            xy: div_signed(self.xy * SCALE, k),
            xz: div_signed(self.xz * SCALE, k),
            yz: div_signed(self.yz * SCALE, k),
        }
    }

    /// Componentwise fixed-point product; an algebraic building block, not
    /// a geometric operation.
    pub fn mul(self, rhs: Self) -> (r: Self)
        requires
            bivec3_ok(self@),
            bivec3_ok(rhs@),
        ensures
            r@ == (
                self@.0 * rhs@.0 / SCALE as int,
                self@.1 * rhs@.1 / SCALE as int,
                self@.2 * rhs@.2 / SCALE as int,
            ),
    {
        proof {
            lemma_mul_bound(self@.0, rhs@.0, COMP_BOUND as int, COMP_BOUND as int);
            lemma_mul_bound(self@.1, rhs@.1, COMP_BOUND as int, COMP_BOUND as int);
            lemma_mul_bound(self@.2, rhs@.2, COMP_BOUND as int, COMP_BOUND as int);
        }
        Bivector3 {
            xy: div_floor(self.xy * rhs.xy, SCALE),
            xz: div_floor(self.xz * rhs.xz, SCALE),
            yz: div_floor(self.yz * rhs.yz, SCALE),
        }
    }

    /// Componentwise fixed-point quotient.
    pub fn div(self, rhs: Self) -> (r: Self)
        requires
            bivec3_ok(self@),
            rhs@.0 != 0,
            rhs@.1 != 0,
            rhs@.2 != 0,
        ensures
            r@ == (self@.0 * SCALE / rhs@.0, self@.1 * SCALE / rhs@.1, self@.2 * SCALE / rhs@.2),
    {
        proof {
            lemma_mul_bound(self@.0, SCALE as int, COMP_BOUND as int, SCALE as int);
            lemma_mul_bound(self@.1, SCALE as int, COMP_BOUND as int, SCALE as int);
            lemma_mul_bound(self@.2, SCALE as int, COMP_BOUND as int, SCALE as int);
        }
        Bivector3 {
            xy: div_signed(self.xy * SCALE, rhs.xy),
            xz: div_signed(self.xz * SCALE, rhs.xz),
            yz: div_signed(self.yz * SCALE, rhs.yz),
        }
    }
}

impl Bivector for Bivector3 {
    open spec fn bounded(&self) -> bool {
        bivec3_ok(self@)
    }

    open spec fn nonzero(&self) -> bool {
        self@ != (0int, 0int, 0int)
    }

    fn mag(&self) -> (r: i64)
        ensures
            r == sqrt_floor(bivec3_mag_sq(self@) as nat),
    {
        proof {
            lemma_mul_bound(self@.0, self@.0, COMP_BOUND as int, COMP_BOUND as int);
            lemma_mul_bound(self@.1, self@.1, COMP_BOUND as int, COMP_BOUND as int);
            lemma_mul_bound(self@.2, self@.2, COMP_BOUND as int, COMP_BOUND as int);
            lemma_square_nonneg(self@.0);
            lemma_square_nonneg(self@.1);
            lemma_square_nonneg(self@.2);
        }
        isqrt(self.xy * self.xy + self.xz * self.xz + self.yz * self.yz)
    }

    fn mag_sq(&self) -> (r: i64)
        ensures
            r == bivec3_mag_sq(self@) / SCALE as int,
    {
        proof {
            lemma_mul_bound(self@.0, self@.0, COMP_BOUND as int, COMP_BOUND as int);
            lemma_mul_bound(self@.1, self@.1, COMP_BOUND as int, COMP_BOUND as int);
            lemma_mul_bound(self@.2, self@.2, COMP_BOUND as int, COMP_BOUND as int);
        }
        div_floor(self.xy * self.xy + self.xz * self.xz + self.yz * self.yz, SCALE)
    }

    fn dot(&self, other: Self) -> (r: i64)
        ensures
            r == bivec3_dot(self@, other@) / SCALE as int,
    {
        proof {
            lemma_mul_bound(self@.0, other@.0, COMP_BOUND as int, COMP_BOUND as int);
            lemma_mul_bound(self@.1, other@.1, COMP_BOUND as int, COMP_BOUND as int);
            lemma_mul_bound(self@.2, other@.2, COMP_BOUND as int, COMP_BOUND as int);
        }
        div_floor(self.xy * other.xy + self.xz * other.xz + self.yz * other.yz, SCALE)
    }

    fn normalize(&mut self)
        ensures
            final(self)@.0 == old(self)@.0 * SCALE / sqrt_floor(
                bivec3_mag_sq(old(self)@) as nat,
            ) as int,
            final(self)@.1 == old(self)@.1 * SCALE / sqrt_floor(
                bivec3_mag_sq(old(self)@) as nat,
            ) as int,
            final(self)@.2 == old(self)@.2 * SCALE / sqrt_floor(
                bivec3_mag_sq(old(self)@) as nat,
            ) as int,
    {
        proof {
            lemma_mul_bound(self@.0, self@.0, COMP_BOUND as int, COMP_BOUND as int);
            lemma_mul_bound(self@.1, self@.1, COMP_BOUND as int, COMP_BOUND as int);
            lemma_mul_bound(self@.2, self@.2, COMP_BOUND as int, COMP_BOUND as int);
            lemma_square_nonneg(self@.0);
            lemma_square_nonneg(self@.1);
            lemma_square_nonneg(self@.2);
            assert(bivec3_mag_sq(self@) >= 1) by (nonlinear_arith)
                requires
                    self@ != (0int, 0int, 0int),
            ;
            lemma_mul_bound(self@.0, SCALE as int, COMP_BOUND as int, SCALE as int);
            lemma_mul_bound(self@.1, SCALE as int, COMP_BOUND as int, SCALE as int);
            lemma_mul_bound(self@.2, SCALE as int, COMP_BOUND as int, SCALE as int);
        }
        let m: i64 = isqrt(self.xy * self.xy + self.xz * self.xz + self.yz * self.yz);
        proof {
            assert(m >= 1) by (nonlinear_arith)
                requires
                    m * m <= bivec3_mag_sq(self@),
                    bivec3_mag_sq(self@) < (m + 1) * (m + 1),
                    bivec3_mag_sq(self@) >= 1,
                    m >= 0,
            ;
        }
        self.xy = div_floor(self.xy * SCALE, m);
        self.xz = div_floor(self.xz * SCALE, m);
        self.yz = div_floor(self.yz * SCALE, m);
    }

    fn normalized(&self) -> (r: Self)
        ensures
            r@.0 == self@.0 * SCALE / sqrt_floor(bivec3_mag_sq(self@) as nat) as int,
            r@.1 == self@.1 * SCALE / sqrt_floor(bivec3_mag_sq(self@) as nat) as int,
            r@.2 == self@.2 * SCALE / sqrt_floor(bivec3_mag_sq(self@) as nat) as int,
    {
        let mut v = *self;
        v.normalize();
        v
    }
}

} // verus!
