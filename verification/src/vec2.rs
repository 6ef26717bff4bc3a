//! The 2D vector collaborator: componentwise arithmetic, dot, wedge and
//! geometric products, and normalization, in 16.16 fixed point.

use vstd::prelude::*;

verus! {

use crate::bivec2::Bivector2;
use crate::fixed::{
    SCALE, VEC_BOUND, comp_ok, div_floor, div_signed, isqrt, lemma_mul_bound, lemma_square_nonneg,
    sqrt_floor, vec_ok,
};
use crate::rotor2::Rotor2;
use crate::vector::Vector;

/// A 2D vector. Components count steps of `1 / SCALE`.
#[derive(Clone, Copy, Debug, PartialEq, Eq, Structural)]
pub struct Vector2 {
    pub x: i64,
    pub y: i64,
}

impl View for Vector2 {
    type V = (int, int);

    open spec fn view(&self) -> (int, int) {
        (self.x as int, self.y as int)
    }
}

/// True when both components are acceptable vector components.
pub open spec fn vec2_ok(v: (int, int)) -> bool {
    vec_ok(v.0) && vec_ok(v.1)
}

/// The dot product, unscaled.
pub open spec fn vec2_dot(a: (int, int), b: (int, int)) -> int {
    a.0 * b.0 + a.1 * b.1
}

/// The wedge product's single plane coefficient, unscaled.
pub open spec fn vec2_wedge(a: (int, int), b: (int, int)) -> int {
    a.0 * b.1 - a.1 * b.0
}

/// The squared magnitude, unscaled.
pub open spec fn vec2_mag_sq(a: (int, int)) -> int {
    a.0 * a.0 + a.1 * a.1
}

impl Vector2 {
    /// Builds from components; no validation.
    pub fn new(x: i64, y: i64) -> (r: Self)
        ensures
            r@ == (x as int, y as int),
    {
        Vector2 { x, y }
    }

    /// Both components equal to `val`.
    pub fn uni(val: i64) -> (r: Self)
        ensures
            r@ == (val as int, val as int),
    {
        Vector2 { x: val, y: val }
    }

    /// The additive identity.
    pub fn zero() -> (r: Self)
        ensures
            r@ == (0int, 0int),
    {
        Vector2 { x: 0, y: 0 }
    }

    /// One whole unit in each component.
    pub fn one() -> (r: Self)
        ensures
            r@ == (SCALE as int, SCALE as int),
    {
        Vector2 { x: SCALE, y: SCALE }
    }

    /// The unit vector along positive `y`.
    pub fn up() -> (r: Self)
        ensures
            r@ == (0int, SCALE as int),
    {
        Vector2 { x: 0, y: SCALE }
    }

    /// The unit vector along negative `y`.
    pub fn down() -> (r: Self)
        ensures
            r@ == (0int, -SCALE as int),
    {
        Vector2 { x: 0, y: -SCALE }
    }

    /// The unit vector along positive `x`.
    pub fn right() -> (r: Self)
        ensures
            r@ == (SCALE as int, 0int),
    {
        Vector2 { x: SCALE, y: 0 }
    }

    /// The unit vector along negative `x`.
    pub fn left() -> (r: Self)
        ensures
            r@ == (-SCALE as int, 0int),
    {
        Vector2 { x: -SCALE, y: 0 }
    }

    /// The component at `index`; the only valid indices are 0 and 1.
    pub fn at(&self, index: usize) -> (r: i64)
        requires
            index < 2,
        ensures
            index == 0 ==> r == self@.0,
            index == 1 ==> r == self@.1,
    {
        if index == 0 {
            self.x
        } else {
            self.y
        }
    }

    /// Componentwise sum.
    pub fn add(self, rhs: Self) -> (r: Self)
        requires
            i64::MIN <= self@.0 + rhs@.0 <= i64::MAX,
            i64::MIN <= self@.1 + rhs@.1 <= i64::MAX,
        ensures
            r@ == (self@.0 + rhs@.0, self@.1 + rhs@.1),
    {
        Vector2 { x: self.x + rhs.x, y: self.y + rhs.y }
    }

    /// Componentwise sum, in place.
    pub fn add_assign(&mut self, rhs: Self)
        requires
            i64::MIN <= old(self)@.0 + rhs@.0 <= i64::MAX,
            i64::MIN <= old(self)@.1 + rhs@.1 <= i64::MAX,
        ensures
            final(self)@ == (old(self)@.0 + rhs@.0, old(self)@.1 + rhs@.1),
    {
        self.x = self.x + rhs.x;
        self.y = self.y + rhs.y;
    }

    /// Componentwise difference.
    pub fn sub(self, rhs: Self) -> (r: Self)
        requires
            i64::MIN <= self@.0 - rhs@.0 <= i64::MAX,
            i64::MIN <= self@.1 - rhs@.1 <= i64::MAX,
        ensures
            r@ == (self@.0 - rhs@.0, self@.1 - rhs@.1),
    {
        Vector2 { x: self.x - rhs.x, y: self.y - rhs.y }
    }

    /// Componentwise difference, in place.
    pub fn sub_assign(&mut self, rhs: Self)
        requires
            i64::MIN <= old(self)@.0 - rhs@.0 <= i64::MAX,
            i64::MIN <= old(self)@.1 - rhs@.1 <= i64::MAX,
        ensures
            final(self)@ == (old(self)@.0 - rhs@.0, old(self)@.1 - rhs@.1),
    {
        self.x = self.x - rhs.x;
        self.y = self.y - rhs.y;
    }

    /// Componentwise negation.
    pub fn neg(self) -> (r: Self)
        requires
            self@.0 > i64::MIN,
            self@.1 > i64::MIN,
        ensures
            r@ == (-self@.0, -self@.1),
    {
        Vector2 { x: -self.x, y: -self.y }
    }

    /// Scales by the fixed-point factor `k`.
    pub fn scale(self, k: i64) -> (r: Self)
        requires
            vec2_ok(self@),
            comp_ok(k as int),
        ensures
            r@ == (self@.0 * k / SCALE as int, self@.1 * k / SCALE as int),
    {
        proof {
            lemma_mul_bound(self@.0, k as int, VEC_BOUND as int, crate::fixed::COMP_BOUND as int);
            lemma_mul_bound(self@.1, k as int, VEC_BOUND as int, crate::fixed::COMP_BOUND as int);
        }
        Vector2 { x: div_floor(self.x * k, SCALE), y: div_floor(self.y * k, SCALE) }
    }

    /// Scales by the fixed-point factor `k`, in place.
    pub fn scale_assign(&mut self, k: i64)
        requires
            vec2_ok(old(self)@),
            comp_ok(k as int),
        ensures
            final(self)@ == (old(self)@.0 * k / SCALE as int, old(self)@.1 * k / SCALE as int),
    {
        proof {
            lemma_mul_bound(self@.0, k as int, VEC_BOUND as int, crate::fixed::COMP_BOUND as int);
            lemma_mul_bound(self@.1, k as int, VEC_BOUND as int, crate::fixed::COMP_BOUND as int);
        }
        self.x = div_floor(self.x * k, SCALE);
        self.y = div_floor(self.y * k, SCALE);
    }

    /// Divides by the fixed-point factor `k`.
    pub fn div_scale(self, k: i64) -> (r: Self)
        requires
            vec2_ok(self@),
            k != 0,
        ensures
            r@ == (self@.0 * SCALE / k as int, self@.1 * SCALE / k as int),
    {
        proof {
            lemma_mul_bound(self@.0, SCALE as int, VEC_BOUND as int, SCALE as int);
            lemma_mul_bound(self@.1, SCALE as int, VEC_BOUND as int, SCALE as int);
        }
        Vector2 { x: div_signed(self.x * SCALE, k), y: div_signed(self.y * SCALE, k) }
    }

    /// Divides by the fixed-point factor `k`, in place.
    pub fn div_scale_assign(&mut self, k: i64)
        requires
            vec2_ok(old(self)@),
            k != 0,
        ensures
            final(self)@ == (old(self)@.0 * SCALE / k as int, old(self)@.1 * SCALE / k as int),
    {
        proof {
            lemma_mul_bound(self@.0, SCALE as int, VEC_BOUND as int, SCALE as int);
            lemma_mul_bound(self@.1, SCALE as int, VEC_BOUND as int, SCALE as int);
        }
        self.x = div_signed(self.x * SCALE, k);
        self.y = div_signed(self.y * SCALE, k);
    }
}

impl Vector for Vector2 {
    type Bivec = Bivector2;

    type Rotor = Rotor2;

    open spec fn bounded(&self) -> bool {
        vec2_ok(self@)
    }

    open spec fn nonzero(&self) -> bool {
        self@ != (0int, 0int)
    }

    fn mag(&self) -> (r: i64)
        ensures
            r == sqrt_floor(vec2_mag_sq(self@) as nat),
    {
        proof {
            lemma_mul_bound(self@.0, self@.0, VEC_BOUND as int, VEC_BOUND as int);
            lemma_mul_bound(self@.1, self@.1, VEC_BOUND as int, VEC_BOUND as int);
            lemma_square_nonneg(self@.0);
            lemma_square_nonneg(self@.1);
        }
        isqrt(self.x * self.x + self.y * self.y)
    }

    fn mag_sq(&self) -> (r: i64)
        ensures
            r == vec2_mag_sq(self@) / SCALE as int,
    {
        proof {
            lemma_mul_bound(self@.0, self@.0, VEC_BOUND as int, VEC_BOUND as int);
            lemma_mul_bound(self@.1, self@.1, VEC_BOUND as int, VEC_BOUND as int);
        }
        div_floor(self.x * self.x + self.y * self.y, SCALE)
    }

    fn dot(&self, other: Self) -> (r: i64)
        ensures
            r == vec2_dot(self@, other@) / SCALE as int,
    {
        proof {
            lemma_mul_bound(self@.0, other@.0, VEC_BOUND as int, VEC_BOUND as int);
            lemma_mul_bound(self@.1, other@.1, VEC_BOUND as int, VEC_BOUND as int);
        }
        div_floor(self.x * other.x + self.y * other.y, SCALE)
    }

    fn wedge(&self, other: Self) -> (r: Bivector2)
        ensures
            r@ == vec2_wedge(self@, other@) / SCALE as int,
    {
        proof {
            lemma_mul_bound(self@.0, other@.1, VEC_BOUND as int, VEC_BOUND as int);
            lemma_mul_bound(self@.1, other@.0, VEC_BOUND as int, VEC_BOUND as int);
        }
        Bivector2 { xy: div_floor(self.x * other.y - self.y * other.x, SCALE) }
    }

    fn geom(&self, other: Self) -> (r: Rotor2)
        ensures
            r@ == (vec2_dot(self@, other@) / SCALE as int, vec2_wedge(self@, other@) / SCALE as int),
    {
        Rotor2 { s: self.dot(other), bv: self.wedge(other) }
    }

    fn normalize(&mut self)
        ensures
            final(self)@.0 == old(self)@.0 * SCALE / sqrt_floor(
                vec2_mag_sq(old(self)@) as nat,
            ) as int,
            final(self)@.1 == old(self)@.1 * SCALE / sqrt_floor(
                vec2_mag_sq(old(self)@) as nat,
            ) as int,
    {
        proof {
            lemma_mul_bound(self@.0, self@.0, VEC_BOUND as int, VEC_BOUND as int);
            lemma_mul_bound(self@.1, self@.1, VEC_BOUND as int, VEC_BOUND as int);
            lemma_square_nonneg(self@.0);
            lemma_square_nonneg(self@.1);
            assert(vec2_mag_sq(self@) >= 1) by (nonlinear_arith)
                requires
                    self@ != (0int, 0int),
            ;
            lemma_mul_bound(self@.0, SCALE as int, VEC_BOUND as int, SCALE as int);
            lemma_mul_bound(self@.1, SCALE as int, VEC_BOUND as int, SCALE as int);
        }
        let m: i64 = isqrt(self.x * self.x + self.y * self.y);
        proof {
            assert(m >= 1) by (nonlinear_arith)
                requires
                    m * m <= vec2_mag_sq(self@),
                    vec2_mag_sq(self@) < (m + 1) * (m + 1),
                    vec2_mag_sq(self@) >= 1,
                    m >= 0,
            ;
        }
        self.x = div_floor(self.x * SCALE, m);
        self.y = div_floor(self.y * SCALE, m);
    }

    fn normalized(&self) -> (r: Self)
        ensures
            r@.0 == self@.0 * SCALE / sqrt_floor(vec2_mag_sq(self@) as nat) as int,
            r@.1 == self@.1 * SCALE / sqrt_floor(vec2_mag_sq(self@) as nat) as int,
    {
        let mut v = *self;
        v.normalize();
        v
    }
}

} // verus!
