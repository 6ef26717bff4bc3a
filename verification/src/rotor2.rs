//! The 2D rotor: a scalar plus a single-plane bivector, encoding a plane
//! rotation exactly as a unit complex number does.
//!
//! The spec functions below give every operation's exact, unscaled integer
//! polynomial; the executable methods compute those polynomials and
//! rescale by floor division. The proof functions state the algebraic
//! laws of the polynomials themselves.

use vstd::prelude::*;

verus! {

use crate::bivec2::Bivector2;
use crate::fixed::{
    COMP_BOUND, SCALE, comp_ok, div_floor, div_signed, isqrt, lemma_mul_bound, lemma_square_nonneg,
    sqrt_floor,
};
use crate::mat2::{Mat2, mat2_apply};
use crate::rotor::Rotor;
use crate::vec2::{Vector2, vec2_mag_sq, vec2_ok};

/// A 2D rotor. For a rotation by `t`, `s` holds `cos(t / 2)` and `bv.xy`
/// holds `-sin(t / 2)`, both in fixed point.
#[derive(Clone, Copy, Debug, PartialEq, Eq, Structural)]
pub struct Rotor2 {
    pub s: i64,
    pub bv: Bivector2,
}

impl View for Rotor2 {
    type V = (int, int);

    open spec fn view(&self) -> (int, int) {
        (self.s as int, self.bv.xy as int)
    }
}

/// True when both components are acceptable rotor components.
pub open spec fn rotor2_ok(r: (int, int)) -> bool {
    comp_ok(r.0) && comp_ok(r.1)
}

/// The rotor product, unscaled: the complex multiplication rule on
/// `(scalar, plane)` pairs.
pub open spec fn rotor2_product(a: (int, int), b: (int, int)) -> (int, int) {
    (a.0 * b.0 - a.1 * b.1, a.0 * b.1 + b.0 * a.1)
}

/// The reverse: the bivector part negated; the inverse rotation for a
/// unit rotor.
pub open spec fn rotor2_reverse(a: (int, int)) -> (int, int) {
    (a.0, -a.1)
}

/// The squared magnitude of the `(scalar, plane)` pair, unscaled.
pub open spec fn rotor2_mag_sq(a: (int, int)) -> int {
    a.0 * a.0 + a.1 * a.1
}

/// The dot product of two rotors, unscaled.
pub open spec fn rotor2_dot(a: (int, int), b: (int, int)) -> int {
    a.0 * b.0 + a.1 * b.1
}

/// The sandwich product `r * v * reverse(r)` restricted to the vector
/// grade, unscaled: how a rotor moves a vector.
pub open spec fn rotor2_apply(r: (int, int), v: (int, int)) -> (int, int) {
    let fe1 = r.0 * v.0 + r.1 * v.1;
    let fe2 = r.0 * v.1 - r.1 * v.0;
    (r.0 * fe1 + r.1 * fe2, r.0 * fe2 - r.1 * fe1)
}

/// The rotation matrix equivalent to a rotor, unscaled, as two columns.
pub open spec fn rotor2_matrix(r: (int, int)) -> ((int, int), (int, int)) {
    let d = r.0 * r.0 - r.1 * r.1;
    let t = 2 * (r.0 * r.1);
    ((d, -t), (t, d))
}

/// The scalar component of associativity, over plain integers.
proof fn lemma_assoc_scalar(
    a0: int,
    a1: int,
    b0: int,
    b1: int,
    c0: int,
    c1: int,
    m0: int,
    m1: int,
    n0: int,
    n1: int,
)
    requires
        m0 == a0 * b0 - a1 * b1,
        m1 == a0 * b1 + b0 * a1,
        n0 == b0 * c0 - b1 * c1,
        n1 == b0 * c1 + c0 * b1,
    ensures
        m0 * c0 - m1 * c1 == a0 * n0 - a1 * n1,
{
    broadcast use vstd::arithmetic::mul::group_mul_properties;

}

/// The plane component of associativity, over plain integers.
proof fn lemma_assoc_plane(
    a0: int,
    a1: int,
    b0: int,
    b1: int,
    c0: int,
    c1: int,
    m0: int,
    m1: int,
    n0: int,
    n1: int,
)
    requires
        m0 == a0 * b0 - a1 * b1,
        m1 == a0 * b1 + b0 * a1,
        n0 == b0 * c0 - b1 * c1,
        n1 == b0 * c1 + c0 * b1,
    ensures
        m0 * c1 + c0 * m1 == a0 * n1 + n0 * a1,
{
    broadcast use vstd::arithmetic::mul::group_mul_properties;

}

/// The rotor product is associative.
pub proof fn lemma_rotor2_product_assoc(a: (int, int), b: (int, int), c: (int, int))
    ensures
        rotor2_product(rotor2_product(a, b), c) == rotor2_product(a, rotor2_product(b, c)),
{
    let ab = rotor2_product(a, b);
    let bc = rotor2_product(b, c);
    lemma_assoc_scalar(a.0, a.1, b.0, b.1, c.0, c.1, ab.0, ab.1, bc.0, bc.1);
    lemma_assoc_plane(a.0, a.1, b.0, b.1, c.0, c.1, ab.0, ab.1, bc.0, bc.1);
}

/// The squared magnitude of a product, over plain integers.
proof fn lemma_magsq_product_parts(
    a0: int,
    a1: int,
    b0: int,
    b1: int,
    m0: int,
    m1: int,
)
    requires
        m0 == a0 * b0 - a1 * b1,
        m1 == a0 * b1 + b0 * a1,
    ensures
        m0 * m0 + m1 * m1 == (a0 * a0 + a1 * a1) * (b0 * b0 + b1 * b1),
{
    broadcast use vstd::arithmetic::mul::group_mul_properties;

}

/// The squared magnitude is multiplicative over the rotor product, so a
/// product of unit rotors is unit.
pub proof fn lemma_rotor2_product_mag_sq(a: (int, int), b: (int, int))
    ensures
        rotor2_mag_sq(rotor2_product(a, b)) == rotor2_mag_sq(a) * rotor2_mag_sq(b),
{
    let ab = rotor2_product(a, b);
    lemma_magsq_product_parts(a.0, a.1, b.0, b.1, ab.0, ab.1);
}

/// The identity rotor's sandwich returns every vector unchanged, up to
/// the fixed-point scale of the two rotor factors.
pub proof fn lemma_rotor2_identity_apply(v: (int, int))
    ensures
        rotor2_apply((SCALE as int, 0int), v) == (
            (SCALE * SCALE) as int * v.0,
            (SCALE * SCALE) as int * v.1,
        ),
{
    let f: int = SCALE as int;
    vstd::arithmetic::mul::lemma_mul_by_zero_is_zero(v.0);
    vstd::arithmetic::mul::lemma_mul_by_zero_is_zero(v.1);
    vstd::arithmetic::mul::lemma_mul_by_zero_is_zero(f * v.1 - 0int * v.0);
    vstd::arithmetic::mul::lemma_mul_by_zero_is_zero(f * v.0 + 0int * v.1);
    vstd::arithmetic::mul::lemma_mul_is_associative(f, f, v.0);
    vstd::arithmetic::mul::lemma_mul_is_associative(f, f, v.1);
    assert(f * (f * v.0 + 0int * v.1) == f * (f * v.0));
    assert(f * (f * v.1 - 0int * v.0) == f * (f * v.1));
}

/// The scalar component of the 2D conjugation, over plain integers.
proof fn lemma_conjugation_scalar(a0: int, a1: int, b0: int, b1: int, m0: int, m1: int)
    requires
        m0 == a0 * b0 - a1 * b1,
        m1 == a0 * b1 + b0 * a1,
    ensures
        m0 * a0 + m1 * a1 == b0 * (a0 * a0 + a1 * a1),
{
    broadcast use vstd::arithmetic::mul::group_mul_properties;

}

/// The plane component of the 2D conjugation, over plain integers.
proof fn lemma_conjugation_plane(a0: int, a1: int, b0: int, b1: int, m0: int, m1: int)
    requires
        m0 == a0 * b0 - a1 * b1,
        m1 == a0 * b1 + b0 * a1,
    ensures
        a0 * m1 - m0 * a1 == b1 * (a0 * a0 + a1 * a1),
{
    broadcast use vstd::arithmetic::mul::group_mul_properties;

}

/// Conjugating one 2D rotor by another only scales it: plane rotations
/// commute, so `a * b * reverse(a)` is `b` times the squared magnitude
/// of `a`.
pub proof fn lemma_rotor2_conjugation(a: (int, int), b: (int, int))
    ensures
        rotor2_product(rotor2_product(a, b), rotor2_reverse(a)) == (
            b.0 * rotor2_mag_sq(a),
            b.1 * rotor2_mag_sq(a),
        ),
{
    let ab = rotor2_product(a, b);
    lemma_conjugation_scalar(a.0, a.1, b.0, b.1, ab.0, ab.1);
    lemma_conjugation_plane(a.0, a.1, b.0, b.1, ab.0, ab.1);
    vstd::arithmetic::mul::lemma_mul_unary_negation(ab.0, a.1);
    vstd::arithmetic::mul::lemma_mul_unary_negation(ab.1, a.1);
}

/// A rotor built from an exact half-angle encoding is unit: if the given
/// cosine and sine satisfy the circle equation exactly, the rotor's
/// squared magnitude is exactly one unit.
pub proof fn lemma_rotor2_from_angle_unit(cos_half: int, sin_half: int)
    requires
        cos_half * cos_half + sin_half * sin_half == SCALE * SCALE,
    ensures
        rotor2_mag_sq((cos_half, -sin_half)) / SCALE as int == SCALE as int,
{
    assert(rotor2_mag_sq((cos_half, -sin_half)) == SCALE * SCALE) by (nonlinear_arith)
        requires
            cos_half * cos_half + sin_half * sin_half == SCALE * SCALE,
    ;
    assert((SCALE * SCALE) as int / SCALE as int == SCALE as int) by (nonlinear_arith);
}

impl Rotor2 {
    /// Builds from a scalar part and a bivector part; no validation.
    pub fn new(s: i64, bv: Bivector2) -> (r: Self)
        ensures
            r@ == (s as int, bv@),
    {
        Rotor2 { s, bv }
    }

    /// The identity rotation.
    pub fn identity() -> (r: Self)
        ensures
            r@ == (SCALE as int, 0int),
    {
        Rotor2 { s: SCALE, bv: Bivector2 { xy: 0 } }
    }

    /// Builds the rotor for a rotation by the angle whose half-angle
    /// cosine and sine, in fixed point, are given. The half-angle and the
    /// negated sine are the load-bearing sign convention of the whole
    /// algebra: the double-sided sandwich then rotates by the full angle.
    pub fn from_angle_parts(cos_half: i64, sin_half: i64) -> (r: Self)
        requires
            sin_half > i64::MIN,
        ensures
            r@ == (cos_half as int, -sin_half as int),
    {
        Rotor2 { s: cos_half, bv: Bivector2 { xy: -sin_half } }
    }

    /// The rotor product: the composition of the two rotations.
    pub fn mul(self, rhs: Self) -> (r: Self)
        requires
            rotor2_ok(self@),
            rotor2_ok(rhs@),
        ensures
            r@.0 == rotor2_product(self@, rhs@).0 / SCALE as int,
            r@.1 == rotor2_product(self@, rhs@).1 / SCALE as int,
    {
        proof {
            lemma_mul_bound(self@.0, rhs@.0, COMP_BOUND as int, COMP_BOUND as int);
            lemma_mul_bound(self@.1, rhs@.1, COMP_BOUND as int, COMP_BOUND as int);
            lemma_mul_bound(self@.0, rhs@.1, COMP_BOUND as int, COMP_BOUND as int);
            lemma_mul_bound(rhs@.0, self@.1, COMP_BOUND as int, COMP_BOUND as int);
        }
        Rotor2 {
            s: div_floor(self.s * rhs.s - self.bv.xy * rhs.bv.xy, SCALE),
            bv: Bivector2 { xy: div_floor(self.s * rhs.bv.xy + rhs.s * self.bv.xy, SCALE) },
        }
    }

    /// Componentwise sum; used for blending, not for composing rotations.
    pub fn add(self, rhs: Self) -> (r: Self)
        requires
            i64::MIN <= self@.0 + rhs@.0 <= i64::MAX,
            i64::MIN <= self@.1 + rhs@.1 <= i64::MAX,
        ensures
            r@ == (self@.0 + rhs@.0, self@.1 + rhs@.1),
    {
        Rotor2 { s: self.s + rhs.s, bv: Bivector2 { xy: self.bv.xy + rhs.bv.xy } }
    }

    /// Componentwise difference.
    pub fn sub(self, rhs: Self) -> (r: Self)
        requires
            i64::MIN <= self@.0 - rhs@.0 <= i64::MAX,
            i64::MIN <= self@.1 - rhs@.1 <= i64::MAX,
        ensures
            r@ == (self@.0 - rhs@.0, self@.1 - rhs@.1),
    {
        Rotor2 { s: self.s - rhs.s, bv: Bivector2 { xy: self.bv.xy - rhs.bv.xy } }
    }

    /// Scales both components by the fixed-point factor `k`.
    pub fn scale(self, k: i64) -> (r: Self)
        requires
            rotor2_ok(self@),
            comp_ok(k as int),
        ensures
            r@ == (self@.0 * k / SCALE as int, self@.1 * k / SCALE as int),
    {
        proof {
            lemma_mul_bound(self@.0, k as int, COMP_BOUND as int, COMP_BOUND as int);
            lemma_mul_bound(self@.1, k as int, COMP_BOUND as int, COMP_BOUND as int);
        }
        Rotor2 {
            s: div_floor(self.s * k, SCALE),
            bv: Bivector2 { xy: div_floor(self.bv.xy * k, SCALE) },
        }
    }

    /// Scales both components by the fixed-point factor `k`, in place.
    pub fn scale_assign(&mut self, k: i64)
        requires
            rotor2_ok(old(self)@),
            comp_ok(k as int),
        ensures
            final(self)@ == (old(self)@.0 * k / SCALE as int, old(self)@.1 * k / SCALE as int),
    {
        proof {
            lemma_mul_bound(self@.0, k as int, COMP_BOUND as int, COMP_BOUND as int);
            lemma_mul_bound(self@.1, k as int, COMP_BOUND as int, COMP_BOUND as int);
        }
        self.s = div_floor(self.s * k, SCALE);
        self.bv.xy = div_floor(self.bv.xy * k, SCALE);
    }

    /// Divides both components by the fixed-point factor `k`.
    pub fn div_scale(self, k: i64) -> (r: Self)
        requires
            rotor2_ok(self@),
            k != 0,
        ensures
            r@ == (self@.0 * SCALE / k as int, self@.1 * SCALE / k as int),
    {
        proof {
            lemma_mul_bound(self@.0, SCALE as int, COMP_BOUND as int, SCALE as int);
            lemma_mul_bound(self@.1, SCALE as int, COMP_BOUND as int, SCALE as int);
        }
        Rotor2 {
            s: div_signed(self.s * SCALE, k),
            bv: Bivector2 { xy: div_signed(self.bv.xy * SCALE, k) },
        }
    }

    /// Divides both components by the fixed-point factor `k`, in place.
    pub fn div_scale_assign(&mut self, k: i64)
        requires
            rotor2_ok(old(self)@),
            k != 0,
        ensures
            final(self)@ == (old(self)@.0 * SCALE / k as int, old(self)@.1 * SCALE / k as int),
    {
        proof {
            lemma_mul_bound(self@.0, SCALE as int, COMP_BOUND as int, SCALE as int);
            lemma_mul_bound(self@.1, SCALE as int, COMP_BOUND as int, SCALE as int);
        }
        self.s = div_signed(self.s * SCALE, k);
        self.bv.xy = div_signed(self.bv.xy * SCALE, k);
    }
}


impl Rotor for Rotor2 {
    type Vector = Vector2;

    type Matrix = Mat2;

    open spec fn bounded(&self) -> bool {
        rotor2_ok(self@)
    }

    open spec fn nonzero(&self) -> bool {
        self@ != (0int, 0int)
    }

    open spec fn vec_bounded(v: Vector2) -> bool {
        vec2_ok(v@)
    }

    /// The magnitude of the `(scalar, plane)` pair.
    fn mag(&self) -> (r: i64)
        ensures
            r == sqrt_floor(rotor2_mag_sq(self@) as nat),
    {
        proof {
            lemma_mul_bound(self@.0, self@.0, COMP_BOUND as int, COMP_BOUND as int);
            lemma_mul_bound(self@.1, self@.1, COMP_BOUND as int, COMP_BOUND as int);
            lemma_square_nonneg(self@.0);
            lemma_square_nonneg(self@.1);
        }
        isqrt(self.s * self.s + self.bv.xy * self.bv.xy)
    }

    /// The squared magnitude of the `(scalar, plane)` pair.
    fn mag_sq(&self) -> (r: i64)
        ensures
            r == rotor2_mag_sq(self@) / SCALE as int,
    {
        proof {
            lemma_mul_bound(self@.0, self@.0, COMP_BOUND as int, COMP_BOUND as int);
            lemma_mul_bound(self@.1, self@.1, COMP_BOUND as int, COMP_BOUND as int);
        }
        div_floor(self.s * self.s + self.bv.xy * self.bv.xy, SCALE)
    }

    /// The dot product of two rotors.
    fn dot(&self, other: Self) -> (r: i64)
        ensures
            r == rotor2_dot(self@, other@) / SCALE as int,
    {
        proof {
            lemma_mul_bound(self@.0, other@.0, COMP_BOUND as int, COMP_BOUND as int);
            lemma_mul_bound(self@.1, other@.1, COMP_BOUND as int, COMP_BOUND as int);
        }
        div_floor(self.s * other.s + self.bv.xy * other.bv.xy, SCALE)
    }

    /// Rescales both components so the magnitude becomes one unit.
    /// Undefined on a zero rotor, which is excluded.
    fn normalize(&mut self)
        ensures
            final(self)@.0 == old(self)@.0 * SCALE / sqrt_floor(
                rotor2_mag_sq(old(self)@) as nat,
            ) as int,
            final(self)@.1 == old(self)@.1 * SCALE / sqrt_floor(
                rotor2_mag_sq(old(self)@) as nat,
            ) as int,
    {
        proof {
            lemma_mul_bound(self@.0, self@.0, COMP_BOUND as int, COMP_BOUND as int);
            lemma_mul_bound(self@.1, self@.1, COMP_BOUND as int, COMP_BOUND as int);
            lemma_square_nonneg(self@.0);
            lemma_square_nonneg(self@.1);
            assert(rotor2_mag_sq(self@) >= 1) by (nonlinear_arith)
                requires
                    self@ != (0int, 0int),
            ;
            lemma_mul_bound(self@.0, SCALE as int, COMP_BOUND as int, SCALE as int);
            lemma_mul_bound(self@.1, SCALE as int, COMP_BOUND as int, SCALE as int);
        }
        let m: i64 = isqrt(self.s * self.s + self.bv.xy * self.bv.xy);
        proof {
            assert(m >= 1) by (nonlinear_arith)
                requires
                    m * m <= rotor2_mag_sq(self@),
                    rotor2_mag_sq(self@) < (m + 1) * (m + 1),
                    rotor2_mag_sq(self@) >= 1,
                    m >= 0,
            ;
        }
        self.s = div_floor(self.s * SCALE, m);
        self.bv.xy = div_floor(self.bv.xy * SCALE, m);
    }

    /// A normalized copy.
    fn normalized(&self) -> (r: Self)
        ensures
            r@.0 == self@.0 * SCALE / sqrt_floor(rotor2_mag_sq(self@) as nat) as int,
            r@.1 == self@.1 * SCALE / sqrt_floor(rotor2_mag_sq(self@) as nat) as int,
    {
        let mut r = *self;
        r.normalize();
        r
    }

    /// Negates the bivector part in place: the algebraic conjugate, and
    /// the inverse rotation for a unit rotor.
    fn reverse(&mut self)
        ensures
            final(self)@ == rotor2_reverse(old(self)@),
    {
        self.bv.xy = -self.bv.xy;
    }

    /// A reversed copy.
    fn reversed(&self) -> (r: Self)
        ensures
            r@ == rotor2_reverse(self@),
    {
        let mut r = *self;
        r.reverse();
        r
    }

    /// Transforms this rotor by `other`, in place: the result is the
    /// sandwich `other * self * reverse(other)`, which for 2D rotors is
    /// this rotor scaled by the squared magnitude of `other`.
    fn rotate_by(&mut self, other: Self)
        ensures
            final(self)@.0 == rotor2_product(
                rotor2_product(other@, old(self)@),
                rotor2_reverse(other@),
            ).0 / (SCALE * SCALE) as int,
            final(self)@.1 == rotor2_product(
                rotor2_product(other@, old(self)@),
                rotor2_reverse(other@),
            ).1 / (SCALE * SCALE) as int,
    {
        proof {
            lemma_mul_bound(other@.0, other@.0, COMP_BOUND as int, COMP_BOUND as int);
            lemma_mul_bound(other@.1, other@.1, COMP_BOUND as int, COMP_BOUND as int);
            lemma_mul_bound(
                self@.0,
                rotor2_mag_sq(other@),
                COMP_BOUND as int,
                2 * COMP_BOUND * COMP_BOUND,
            );
            lemma_mul_bound(
                self@.1,
                rotor2_mag_sq(other@),
                COMP_BOUND as int,
                2 * COMP_BOUND * COMP_BOUND,
            );
            lemma_rotor2_conjugation(other@, self@);
        }
        let t: i64 = other.s * other.s + other.bv.xy * other.bv.xy;
        self.s = div_floor(self.s * t, SCALE * SCALE);
        self.bv.xy = div_floor(self.bv.xy * t, SCALE * SCALE);
    }

    /// A copy transformed by `other`.
    fn rotated_by(&self, other: Self) -> (r: Self)
        ensures
            r@.0 == rotor2_product(rotor2_product(other@, self@), rotor2_reverse(other@)).0 / (
            SCALE * SCALE) as int,
            r@.1 == rotor2_product(rotor2_product(other@, self@), rotor2_reverse(other@)).1 / (
            SCALE * SCALE) as int,
    {
        let mut r = *self;
        r.rotate_by(other);
        r
    }

    /// Rotates a vector in place by the double-sided sandwich product,
    /// expanded into scalar terms.
    fn rotate_vec(&self, vec: &mut Vector2)
        ensures
            final(vec)@.0 == rotor2_apply(self@, old(vec)@).0 / (SCALE * SCALE) as int,
            final(vec)@.1 == rotor2_apply(self@, old(vec)@).1 / (SCALE * SCALE) as int,
    {
        proof {
            lemma_mul_bound(self@.0, old(vec)@.0, COMP_BOUND as int, crate::fixed::VEC_BOUND as int);
            lemma_mul_bound(self@.0, old(vec)@.1, COMP_BOUND as int, crate::fixed::VEC_BOUND as int);
            lemma_mul_bound(self@.1, old(vec)@.0, COMP_BOUND as int, crate::fixed::VEC_BOUND as int);
            lemma_mul_bound(self@.1, old(vec)@.1, COMP_BOUND as int, crate::fixed::VEC_BOUND as int);
        }
        let fe1: i64 = self.s * vec.x + self.bv.xy * vec.y;
        let fe2: i64 = self.s * vec.y - self.bv.xy * vec.x;
        proof {
            let fb: int = 2 * COMP_BOUND * crate::fixed::VEC_BOUND;
            lemma_mul_bound(self@.0, fe1 as int, COMP_BOUND as int, fb as int);
            lemma_mul_bound(self@.0, fe2 as int, COMP_BOUND as int, fb as int);
            lemma_mul_bound(self@.1, fe1 as int, COMP_BOUND as int, fb as int);
            lemma_mul_bound(self@.1, fe2 as int, COMP_BOUND as int, fb as int);
        }
        vec.x = div_floor(self.s * fe1 + self.bv.xy * fe2, SCALE * SCALE);
        vec.y = div_floor(self.s * fe2 - self.bv.xy * fe1, SCALE * SCALE);
    }

    /// The rotation matrix equivalent to this rotor.
    fn into_matrix(&self) -> (r: Mat2)
        ensures
            r@.0.0 == rotor2_matrix(self@).0.0 / SCALE as int,
            r@.0.1 == rotor2_matrix(self@).0.1 / SCALE as int,
            r@.1.0 == rotor2_matrix(self@).1.0 / SCALE as int,
            r@.1.1 == rotor2_matrix(self@).1.1 / SCALE as int,
    {
        proof {
            lemma_mul_bound(self@.0, self@.0, COMP_BOUND as int, COMP_BOUND as int);
            lemma_mul_bound(self@.1, self@.1, COMP_BOUND as int, COMP_BOUND as int);
            lemma_mul_bound(self@.0, self@.1, COMP_BOUND as int, COMP_BOUND as int);
        }
        let d: i64 = div_floor(self.s * self.s - self.bv.xy * self.bv.xy, SCALE);
        let t: i64 = div_floor(2 * (self.s * self.bv.xy), SCALE);
        let nt: i64 = div_floor(-(2 * (self.s * self.bv.xy)), SCALE);
        Mat2 { cols: [Vector2 { x: d, y: nt }, Vector2 { x: t, y: d }] }
    }
}

} // verus!
