//! The 3D vector collaborator: componentwise arithmetic, dot, wedge and
//! geometric products, and normalization, in 16.16 fixed point.

use vstd::prelude::*;

verus! {

use crate::bivec3::Bivector3;
use crate::fixed::{
    SCALE, VEC_BOUND, comp_ok, div_floor, div_signed, isqrt, lemma_mul_bound, lemma_square_nonneg,
    sqrt_floor, vec_ok,
};
use crate::rotor3::Rotor3;
use crate::vector::Vector;

/// A 3D vector. Components count steps of `1 / SCALE`.
#[derive(Clone, Copy, Debug, PartialEq, Eq, Structural)]
pub struct Vector3 {
    pub x: i64,
    pub y: i64,
    pub z: i64,
}

impl View for Vector3 {
    type V = (int, int, int);

    open spec fn view(&self) -> (int, int, int) {
        (self.x as int, self.y as int, self.z as int)
    }
}

/// True when all components are acceptable vector components.
pub open spec fn vec3_ok(v: (int, int, int)) -> bool {
    vec_ok(v.0) && vec_ok(v.1) && vec_ok(v.2)
}

/// The dot product, unscaled.
pub open spec fn vec3_dot(a: (int, int, int), b: (int, int, int)) -> int {
    a.0 * b.0 + a.1 * b.1 + a.2 * b.2
}

/// The wedge product's three plane coefficients, unscaled.
pub open spec fn vec3_wedge(a: (int, int, int), b: (int, int, int)) -> (int, int, int) {
    (a.0 * b.1 - a.1 * b.0, a.0 * b.2 - a.2 * b.0, a.1 * b.2 - a.2 * b.1)
}

/// The squared magnitude, unscaled.
pub open spec fn vec3_mag_sq(a: (int, int, int)) -> int {
    a.0 * a.0 + a.1 * a.1 + a.2 * a.2
}

impl Vector3 {
    /// Builds from components; no validation.
    pub fn new(x: i64, y: i64, z: i64) -> (r: Self)
        ensures
            r@ == (x as int, y as int, z as int),
    {
        Vector3 { x, y, z }
    }

    /// All components equal to `val`.
    pub fn uni(val: i64) -> (r: Self)
        ensures
            r@ == (val as int, val as int, val as int),
    {
        Vector3 { x: val, y: val, z: val }
    }

    /// The additive identity.
    pub fn zero() -> (r: Self)
        ensures
            r@ == (0int, 0int, 0int),
    {
        Vector3 { x: 0, y: 0, z: 0 }
    }

    /// One whole unit in each component.
    pub fn one() -> (r: Self)
        ensures
            r@ == (SCALE as int, SCALE as int, SCALE as int),
    {
        Vector3 { x: SCALE, y: SCALE, z: SCALE }
    }

    /// The component at `index`; the only valid indices are 0, 1 and 2.
    pub fn at(&self, index: usize) -> (r: i64)
        requires
            index < 3,
        ensures
            index == 0 ==> r == self@.0,
            index == 1 ==> r == self@.1,
            index == 2 ==> r == self@.2,
    {
        if index == 0 {
            self.x
        } else if index == 1 {
            self.y
        } else {
            self.z
        }
    }

    /// Componentwise sum.
    pub fn add(self, rhs: Self) -> (r: Self)
        requires
            i64::MIN <= self@.0 + rhs@.0 <= i64::MAX,
            i64::MIN <= self@.1 + rhs@.1 <= i64::MAX,
            i64::MIN <= self@.2 + rhs@.2 <= i64::MAX,
        ensures
            r@ == (self@.0 + rhs@.0, self@.1 + rhs@.1, self@.2 + rhs@.2),
    {
        Vector3 { x: self.x + rhs.x, y: self.y + rhs.y, z: self.z + rhs.z }
    }

    /// Componentwise sum, in place.
    pub fn add_assign(&mut self, rhs: Self)
        requires
            i64::MIN <= old(self)@.0 + rhs@.0 <= i64::MAX,
            i64::MIN <= old(self)@.1 + rhs@.1 <= i64::MAX,
            i64::MIN <= old(self)@.2 + rhs@.2 <= i64::MAX,
        ensures
            final(self)@ == (old(self)@.0 + rhs@.0, old(self)@.1 + rhs@.1, old(self)@.2 + rhs@.2),
    {
        self.x = self.x + rhs.x;
        self.y = self.y + rhs.y;
        self.z = self.z + rhs.z;
    }

    /// Componentwise difference.
    pub fn sub(self, rhs: Self) -> (r: Self)
        requires
            i64::MIN <= self@.0 - rhs@.0 <= i64::MAX,
            i64::MIN <= self@.1 - rhs@.1 <= i64::MAX,
            i64::MIN <= self@.2 - rhs@.2 <= i64::MAX,
        ensures
            r@ == (self@.0 - rhs@.0, self@.1 - rhs@.1, self@.2 - rhs@.2),
    {
        Vector3 { x: self.x - rhs.x, y: self.y - rhs.y, z: self.z - rhs.z }
    }

    /// Componentwise difference, in place.
    pub fn sub_assign(&mut self, rhs: Self)
        requires
            i64::MIN <= old(self)@.0 - rhs@.0 <= i64::MAX,
            i64::MIN <= old(self)@.1 - rhs@.1 <= i64::MAX,
            i64::MIN <= old(self)@.2 - rhs@.2 <= i64::MAX,
        ensures
            final(self)@ == (old(self)@.0 - rhs@.0, old(self)@.1 - rhs@.1, old(self)@.2 - rhs@.2),
    {
        self.x = self.x - rhs.x;
        self.y = self.y - rhs.y;
        self.z = self.z - rhs.z;
    }

    /// Componentwise negation.
    pub fn neg(self) -> (r: Self)
        requires
            self@.0 > i64::MIN,
            self@.1 > i64::MIN,
            self@.2 > i64::MIN,
        ensures
            r@ == (-self@.0, -self@.1, -self@.2),
    {
        Vector3 { x: -self.x, y: -self.y, z: -self.z }
    }

    /// Scales by the fixed-point factor `k`.
    pub fn scale(self, k: i64) -> (r: Self)
        requires
            vec3_ok(self@),
            comp_ok(k as int),
        ensures
            r@ == (
                self@.0 * k / SCALE as int,
                self@.1 * k / SCALE as int,
                self@.2 * k / SCALE as int,
            ),
    {
        proof {
            lemma_mul_bound(self@.0, k as int, VEC_BOUND as int, crate::fixed::COMP_BOUND as int);
            lemma_mul_bound(self@.1, k as int, VEC_BOUND as int, crate::fixed::COMP_BOUND as int);
            lemma_mul_bound(self@.2, k as int, VEC_BOUND as int, crate::fixed::COMP_BOUND as int);
        }
        Vector3 {
            x: div_floor(self.x * k, SCALE),
            y: div_floor(self.y * k, SCALE),
            z: div_floor(self.z * k, SCALE),
        }
    }

    /// Divides by the fixed-point factor `k`.
    pub fn div_scale(self, k: i64) -> (r: Self)
        requires
            vec3_ok(self@),
            k != 0,
        ensures
            r@ == (
                self@.0 * SCALE / k as int,
                self@.1 * SCALE / k as int,
                self@.2 * SCALE / k as int,
            ),
    {
        proof {
            lemma_mul_bound(self@.0, SCALE as int, VEC_BOUND as int, SCALE as int);
            lemma_mul_bound(self@.1, SCALE as int, VEC_BOUND as int, SCALE as int);
            lemma_mul_bound(self@.2, SCALE as int, VEC_BOUND as int, SCALE as int);
        }
        Vector3 {
            x: div_signed(self.x * SCALE, k),
            y: div_signed(self.y * SCALE, k),
            z: div_signed(self.z * SCALE, k),
        }
    }
}

impl Vector for Vector3 {
    type Bivec = Bivector3;

    type Rotor = Rotor3;

    open spec fn bounded(&self) -> bool {
        vec3_ok(self@)
    }

    open spec fn nonzero(&self) -> bool {
        self@ != (0int, 0int, 0int)
    }

    fn mag(&self) -> (r: i64)
        ensures
            r == sqrt_floor(vec3_mag_sq(self@) as nat),
    {
        proof {
            lemma_mul_bound(self@.0, self@.0, VEC_BOUND as int, VEC_BOUND as int);
            lemma_mul_bound(self@.1, self@.1, VEC_BOUND as int, VEC_BOUND as int);
            lemma_mul_bound(self@.2, self@.2, VEC_BOUND as int, VEC_BOUND as int);
            lemma_square_nonneg(self@.0);
            lemma_square_nonneg(self@.1);
            lemma_square_nonneg(self@.2);
        }
        isqrt(self.x * self.x + self.y * self.y + self.z * self.z)
    }

    fn mag_sq(&self) -> (r: i64)
        ensures
            r == vec3_mag_sq(self@) / SCALE as int,
    {
        proof {
            lemma_mul_bound(self@.0, self@.0, VEC_BOUND as int, VEC_BOUND as int);
            lemma_mul_bound(self@.1, self@.1, VEC_BOUND as int, VEC_BOUND as int);
            lemma_mul_bound(self@.2, self@.2, VEC_BOUND as int, VEC_BOUND as int);
        }
        div_floor(self.x * self.x + self.y * self.y + self.z * self.z, SCALE)
    }

    fn dot(&self, other: Self) -> (r: i64)
        ensures
            r == vec3_dot(self@, other@) / SCALE as int,
    {
        proof {
            lemma_mul_bound(self@.0, other@.0, VEC_BOUND as int, VEC_BOUND as int);
            lemma_mul_bound(self@.1, other@.1, VEC_BOUND as int, VEC_BOUND as int);
            lemma_mul_bound(self@.2, other@.2, VEC_BOUND as int, VEC_BOUND as int);
        }
        div_floor(self.x * other.x + self.y * other.y + self.z * other.z, SCALE)
    }

    fn wedge(&self, other: Self) -> (r: Bivector3)
        ensures
            r@.0 == vec3_wedge(self@, other@).0 / SCALE as int,
            r@.1 == vec3_wedge(self@, other@).1 / SCALE as int,
            r@.2 == vec3_wedge(self@, other@).2 / SCALE as int,
    {
        proof {
            lemma_mul_bound(self@.0, other@.1, VEC_BOUND as int, VEC_BOUND as int);
            lemma_mul_bound(self@.1, other@.0, VEC_BOUND as int, VEC_BOUND as int);
            lemma_mul_bound(self@.0, other@.2, VEC_BOUND as int, VEC_BOUND as int);
            lemma_mul_bound(self@.2, other@.0, VEC_BOUND as int, VEC_BOUND as int);
            lemma_mul_bound(self@.1, other@.2, VEC_BOUND as int, VEC_BOUND as int);
            lemma_mul_bound(self@.2, other@.1, VEC_BOUND as int, VEC_BOUND as int);
        }
        Bivector3 {
            xy: div_floor(self.x * other.y - self.y * other.x, SCALE),
            xz: div_floor(self.x * other.z - self.z * other.x, SCALE),
            yz: div_floor(self.y * other.z - self.z * other.y, SCALE),
        }
    }

    fn geom(&self, other: Self) -> (r: Rotor3)
        ensures
            r@.0 == vec3_dot(self@, other@) / SCALE as int,
            r@.1 == vec3_wedge(self@, other@).0 / SCALE as int,
            r@.2 == vec3_wedge(self@, other@).1 / SCALE as int,
            r@.3 == vec3_wedge(self@, other@).2 / SCALE as int,
    {
        Rotor3 { s: self.dot(other), bv: self.wedge(other) }
    }

    fn normalize(&mut self)
        ensures
            final(self)@.0 == old(self)@.0 * SCALE / sqrt_floor(
                vec3_mag_sq(old(self)@) as nat,
            ) as int,
            final(self)@.1 == old(self)@.1 * SCALE / sqrt_floor(
                vec3_mag_sq(old(self)@) as nat,
            ) as int,
            final(self)@.2 == old(self)@.2 * SCALE / sqrt_floor(
                vec3_mag_sq(old(self)@) as nat,
            ) as int,
    {
        proof {
            lemma_mul_bound(self@.0, self@.0, VEC_BOUND as int, VEC_BOUND as int);
            lemma_mul_bound(self@.1, self@.1, VEC_BOUND as int, VEC_BOUND as int);
            lemma_mul_bound(self@.2, self@.2, VEC_BOUND as int, VEC_BOUND as int);
            lemma_square_nonneg(self@.0);
            lemma_square_nonneg(self@.1);
            lemma_square_nonneg(self@.2);
            assert(vec3_mag_sq(self@) >= 1) by (nonlinear_arith)
                requires
                    self@ != (0int, 0int, 0int),
            ;
            lemma_mul_bound(self@.0, SCALE as int, VEC_BOUND as int, SCALE as int);
            lemma_mul_bound(self@.1, SCALE as int, VEC_BOUND as int, SCALE as int);
            lemma_mul_bound(self@.2, SCALE as int, VEC_BOUND as int, SCALE as int);
        }
        let m: i64 = isqrt(self.x * self.x + self.y * self.y + self.z * self.z);
        proof {
            assert(m >= 1) by (nonlinear_arith)
                requires
                    m * m <= vec3_mag_sq(self@),
                    vec3_mag_sq(self@) < (m + 1) * (m + 1),
                    vec3_mag_sq(self@) >= 1,
                    m >= 0,
            ;
        }
        self.x = div_floor(self.x * SCALE, m);
        self.y = div_floor(self.y * SCALE, m);
        self.z = div_floor(self.z * SCALE, m);
    }

    fn normalized(&self) -> (r: Self)
        ensures
            r@.0 == self@.0 * SCALE / sqrt_floor(vec3_mag_sq(self@) as nat) as int,
            r@.1 == self@.1 * SCALE / sqrt_floor(vec3_mag_sq(self@) as nat) as int,
            r@.2 == self@.2 * SCALE / sqrt_floor(vec3_mag_sq(self@) as nat) as int,
    {
        let mut v = *self;
        v.normalize();
        v
    }
}

} // verus!
