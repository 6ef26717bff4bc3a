//! The 4D vector: plain data plumbing, present as the column type of the
//! 4x4 matrix container.

use vstd::prelude::*;

verus! {

use crate::fixed::{SCALE, VEC_BOUND, div_floor, lemma_mul_bound, vec_ok};

/// A 4D vector. Components count steps of `1 / SCALE`.
#[derive(Clone, Copy, Debug, PartialEq, Eq, Structural)]
pub struct Vector4 {
    pub x: i64,
    pub y: i64,
    pub z: i64,
    pub w: i64,
}

impl View for Vector4 {
    type V = (int, int, int, int);

    open spec fn view(&self) -> (int, int, int, int) {
        (self.x as int, self.y as int, self.z as int, self.w as int)
    }
}

/// True when all components are acceptable vector components.
pub open spec fn vec4_ok(v: (int, int, int, int)) -> bool {
    vec_ok(v.0) && vec_ok(v.1) && vec_ok(v.2) && vec_ok(v.3)
}

impl Vector4 {
    /// Builds from components; no validation.
    pub fn new(x: i64, y: i64, z: i64, w: i64) -> (r: Self)
        ensures
            r@ == (x as int, y as int, z as int, w as int),
    {
        Vector4 { x, y, z, w }
    }

    /// All components equal to `val`.
    pub fn uni(val: i64) -> (r: Self)
        ensures
            r@ == (val as int, val as int, val as int, val as int),
    {
        Vector4 { x: val, y: val, z: val, w: val }
    }

    /// The additive identity.
    pub fn zero() -> (r: Self)
        ensures
            r@ == (0int, 0int, 0int, 0int),
    {
        Vector4 { x: 0, y: 0, z: 0, w: 0 }
    }

    /// One whole unit in each component.
    pub fn one() -> (r: Self)
        ensures
            r@ == (SCALE as int, SCALE as int, SCALE as int, SCALE as int),
    {
        Vector4 { x: SCALE, y: SCALE, z: SCALE, w: SCALE }
    }

    /// Componentwise sum.
    pub fn add(self, rhs: Self) -> (r: Self)
        requires
            i64::MIN <= self@.0 + rhs@.0 <= i64::MAX,
            i64::MIN <= self@.1 + rhs@.1 <= i64::MAX,
            i64::MIN <= self@.2 + rhs@.2 <= i64::MAX,
            i64::MIN <= self@.3 + rhs@.3 <= i64::MAX,
        ensures
            r@ == (self@.0 + rhs@.0, self@.1 + rhs@.1, self@.2 + rhs@.2, self@.3 + rhs@.3),
    {
        Vector4 { x: self.x + rhs.x, y: self.y + rhs.y, z: self.z + rhs.z, w: self.w + rhs.w }
    }

    /// Componentwise difference.
    pub fn sub(self, rhs: Self) -> (r: Self)
        requires
            i64::MIN <= self@.0 - rhs@.0 <= i64::MAX,
            i64::MIN <= self@.1 - rhs@.1 <= i64::MAX,
            i64::MIN <= self@.2 - rhs@.2 <= i64::MAX,
            i64::MIN <= self@.3 - rhs@.3 <= i64::MAX,
        ensures
            r@ == (self@.0 - rhs@.0, self@.1 - rhs@.1, self@.2 - rhs@.2, self@.3 - rhs@.3),
    {
        Vector4 { x: self.x - rhs.x, y: self.y - rhs.y, z: self.z - rhs.z, w: self.w - rhs.w }
    }

    /// Componentwise negation.
    pub fn neg(self) -> (r: Self)
        requires
            self@.0 > i64::MIN,
            self@.1 > i64::MIN,
            self@.2 > i64::MIN,
            self@.3 > i64::MIN,
        ensures
            r@ == (-self@.0, -self@.1, -self@.2, -self@.3),
    {
        Vector4 { x: -self.x, y: -self.y, z: -self.z, w: -self.w }
    }

    /// The dot product, rescaled to fixed point.
    pub fn dot(&self, other: Self) -> (r: i64)
        requires
            vec4_ok(self@),
            vec4_ok(other@),
        ensures
            r == (self@.0 * other@.0 + self@.1 * other@.1 + self@.2 * other@.2 + self@.3
                * other@.3) / SCALE as int,
    {
        proof {
            lemma_mul_bound(self@.0, other@.0, VEC_BOUND as int, VEC_BOUND as int);
            lemma_mul_bound(self@.1, other@.1, VEC_BOUND as int, VEC_BOUND as int);
            lemma_mul_bound(self@.2, other@.2, VEC_BOUND as int, VEC_BOUND as int);
            lemma_mul_bound(self@.3, other@.3, VEC_BOUND as int, VEC_BOUND as int);
        }
        div_floor(
            self.x * other.x + self.y * other.y + self.z * other.z + self.w * other.w,
            SCALE,
        )
    }

    /// The component at `index`; the only valid indices are 0 through 3.
    pub fn at(&self, index: usize) -> (r: i64)
        requires
            index < 4,
        ensures
            index == 0 ==> r == self@.0,
            index == 1 ==> r == self@.1,
            index == 2 ==> r == self@.2,
            index == 3 ==> r == self@.3,
    {
        if index == 0 {
            self.x
        } else if index == 1 {
            self.y
        } else if index == 2 {
            self.z
        } else {
            self.w
        }
    }
}

} // verus!
