//! The 3D rotor: a scalar plus a three-plane bivector, encoding a spatial
//! rotation exactly as a unit quaternion does.
//!
//! The spec functions give every operation's exact, unscaled integer
//! polynomial; the executable methods compute those polynomials and
//! rescale by floor division. The proof functions state the algebraic
//! laws of the polynomials, each component discharged by a dedicated
//! helper lemma over plain integers.

use vstd::prelude::*;

verus! {

use crate::bivec3::{Bivector3, bivec3_ok};
use crate::fixed::{
    COMP_BOUND, SCALE, comp_ok, div_floor, div_signed, isqrt, lemma_mul_bound, lemma_square_nonneg,
    sqrt_floor,
};
use crate::mat3::{Mat3, mat3_apply};
use crate::rotor::Rotor;
use crate::vec3::{Vector3, vec3_ok};

/// A 3D rotor. For a rotation by `t` in a unit plane `p`, `s` holds
/// `cos(t / 2)` and `bv` holds `-sin(t / 2) * p`, all in fixed point.
#[derive(Clone, Copy, Debug, PartialEq, Eq, Structural)]
pub struct Rotor3 {
    pub s: i64,
    pub bv: Bivector3,
}

impl View for Rotor3 {
    type V = (int, int, int, int);

    open spec fn view(&self) -> (int, int, int, int) {
        (self.s as int, self.bv.xy as int, self.bv.xz as int, self.bv.yz as int)
    }
}

/// True when all four components are acceptable rotor components.
pub open spec fn rotor3_ok(r: (int, int, int, int)) -> bool {
    comp_ok(r.0) && comp_ok(r.1) && comp_ok(r.2) && comp_ok(r.3)
}

/// The rotor product, unscaled: the geometric product of two
/// scalar-plus-bivector elements, restricted to those grades. The sign
/// pattern follows the anticommutation rules of the three planes.
pub open spec fn rotor3_product(a: (int, int, int, int), b: (int, int, int, int)) -> (
    int,
    int,
    int,
    int,
) {
    (
        a.0 * b.0 - a.1 * b.1 - a.2 * b.2 - a.3 * b.3,
        a.1 * b.0 + a.0 * b.1 + a.3 * b.2 - a.2 * b.3,
        a.2 * b.0 + a.0 * b.2 - a.3 * b.1 + a.1 * b.3,
        a.3 * b.0 + a.0 * b.3 + a.2 * b.1 - a.1 * b.2,
    )
}

/// The reverse: the bivector part negated; the inverse rotation for a
/// unit rotor.
pub open spec fn rotor3_reverse(a: (int, int, int, int)) -> (int, int, int, int) {
    (a.0, -a.1, -a.2, -a.3)
}

/// The squared magnitude of the four components, unscaled.
pub open spec fn rotor3_mag_sq(a: (int, int, int, int)) -> int {
    a.0 * a.0 + a.1 * a.1 + a.2 * a.2 + a.3 * a.3
}

/// The dot product of two rotors, unscaled.
pub open spec fn rotor3_dot(a: (int, int, int, int), b: (int, int, int, int)) -> int {
    a.0 * b.0 + a.1 * b.1 + a.2 * b.2 + a.3 * b.3
}

/// The sandwich product `r * v * reverse(r)` projected on the vector
/// grade, unscaled: the four intermediate terms are the vector and
/// trivector parts of the first half of the sandwich.
pub open spec fn rotor3_apply(r: (int, int, int, int), v: (int, int, int)) -> (int, int, int) {
    let fx = r.0 * v.0 + r.1 * v.1 + r.2 * v.2;
    let fy = r.0 * v.1 - r.1 * v.0 + r.3 * v.2;
    let fz = r.0 * v.2 - r.2 * v.0 - r.3 * v.1;
    let fw = r.1 * v.2 - r.2 * v.1 + r.3 * v.0;
    (
        r.0 * fx + r.1 * fy + r.2 * fz + r.3 * fw,
        r.0 * fy - r.1 * fx - r.2 * fw + r.3 * fz,
        r.0 * fz + r.1 * fw - r.2 * fx - r.3 * fy,
    )
}

/// The expanded closed form of `a * b * reverse(a)`: the
/// rotor-by-rotor transformation, unscaled.
pub open spec fn rotor3_conjugate(a: (int, int, int, int), b: (int, int, int, int)) -> (
    int,
    int,
    int,
    int,
) {
    let sa2 = a.0 * a.0;
    let baxy2 = a.1 * a.1;
    let baxz2 = a.2 * a.2;
    let bayz2 = a.3 * a.3;
    let sa_baxy = a.0 * a.1;
    let sa_baxz = a.0 * a.2;
    let sa_bayz = a.0 * a.3;
    let baxy_baxz = a.1 * a.2;
    let baxy_bayz = a.1 * a.3;
    let baxz_bayz = a.2 * a.3;
    (
        (sa2 + baxy2 + baxz2 + bayz2) * b.0,
        (sa2 + baxy2 - baxz2 - bayz2) * b.1 + (baxy_baxz + sa_bayz) * (2 * b.2) + (baxy_bayz
            - sa_baxz) * (2 * b.3),
        (sa2 - baxy2 + baxz2 - bayz2) * b.2 + (baxy_baxz - sa_bayz) * (2 * b.1) + (baxz_bayz
            + sa_baxy) * (2 * b.3),
        (sa2 - baxy2 - baxz2 + bayz2) * b.3 + (baxy_bayz + sa_baxz) * (2 * b.1) + (baxz_bayz
            - sa_baxy) * (2 * b.2),
    )
}

/// The rotation matrix equivalent to a rotor, unscaled, as three columns.
pub open spec fn rotor3_matrix(r: (int, int, int, int)) -> (
    (int, int, int),
    (int, int, int),
    (int, int, int),
) {
    let s2 = r.0 * r.0;
    let bxy2 = r.1 * r.1;
    let bxz2 = r.2 * r.2;
    let byz2 = r.3 * r.3;
    let s_bxy = r.0 * r.1;
    let s_bxz = r.0 * r.2;
    let s_byz = r.0 * r.3;
    let bxz_byz = r.2 * r.3;
    let bxy_byz = r.1 * r.3;
    let bxy_bxz = r.1 * r.2;
    (
        (s2 - bxy2 - bxz2 + byz2, -(2 * (bxz_byz + s_bxy)), 2 * (bxy_byz - s_bxz)),
        (2 * (s_bxy - bxz_byz), s2 - bxy2 + bxz2 - byz2, -(2 * (s_byz + bxy_bxz))),
        (2 * (s_bxz + bxy_byz), 2 * (s_byz - bxy_bxz), s2 + bxy2 - bxz2 - byz2),
    )
}

/// The rotor product is associative.
pub proof fn lemma_rotor3_product_assoc(
    a: (int, int, int, int),
    b: (int, int, int, int),
    c: (int, int, int, int),
)
    ensures
        rotor3_product(rotor3_product(a, b), c) == rotor3_product(a, rotor3_product(b, c)),
{
    let ab = rotor3_product(a, b);
    let bc = rotor3_product(b, c);
    lemma_assoc_scalar(a.0, a.1, a.2, a.3, b.0, b.1, b.2, b.3, c.0, c.1, c.2, c.3, ab.0, ab.1, ab.2, ab.3, bc.0, bc.1, bc.2, bc.3);
    lemma_assoc_xy(a.0, a.1, a.2, a.3, b.0, b.1, b.2, b.3, c.0, c.1, c.2, c.3, ab.0, ab.1, ab.2, ab.3, bc.0, bc.1, bc.2, bc.3);
    lemma_assoc_xz(a.0, a.1, a.2, a.3, b.0, b.1, b.2, b.3, c.0, c.1, c.2, c.3, ab.0, ab.1, ab.2, ab.3, bc.0, bc.1, bc.2, bc.3);
    lemma_assoc_yz(a.0, a.1, a.2, a.3, b.0, b.1, b.2, b.3, c.0, c.1, c.2, c.3, ab.0, ab.1, ab.2, ab.3, bc.0, bc.1, bc.2, bc.3);
}

/// The matrix of a rotor moves a vector exactly as the rotor does.
pub proof fn lemma_rotor3_matrix_equiv(r: (int, int, int, int), v: (int, int, int))
    ensures
        mat3_apply(rotor3_matrix(r), v) == rotor3_apply(r, v),
{
    lemma_matrix_x(r.0, r.1, r.2, r.3, v.0, v.1, v.2);
    lemma_matrix_y(r.0, r.1, r.2, r.3, v.0, v.1, v.2);
    lemma_matrix_z(r.0, r.1, r.2, r.3, v.0, v.1, v.2);
    vstd::arithmetic::mul::lemma_mul_unary_negation(2 * (r.2 * r.3 + r.0 * r.1), v.0);
    vstd::arithmetic::mul::lemma_mul_unary_negation(2 * (r.0 * r.3 + r.1 * r.2), v.1);
}

/// The expanded closed form of the rotor-by-rotor transformation agrees
/// with the sandwich product `a * b * reverse(a)` exactly.
pub proof fn lemma_rotor3_conjugation(a: (int, int, int, int), b: (int, int, int, int))
    ensures
        rotor3_product(rotor3_product(a, b), rotor3_reverse(a)) == rotor3_conjugate(a, b),
{
    let ab = rotor3_product(a, b);
    lemma_conjugate_scalar(a.0, a.1, a.2, a.3, b.0, b.1, b.2, b.3, ab.0, ab.1, ab.2, ab.3);
    lemma_conjugate_xy(a.0, a.1, a.2, a.3, b.0, b.1, b.2, b.3, ab.0, ab.1, ab.2, ab.3);
    lemma_conjugate_xz(a.0, a.1, a.2, a.3, b.0, b.1, b.2, b.3, ab.0, ab.1, ab.2, ab.3);
    lemma_conjugate_yz(a.0, a.1, a.2, a.3, b.0, b.1, b.2, b.3, ab.0, ab.1, ab.2, ab.3);
    vstd::arithmetic::mul::lemma_mul_unary_negation(ab.0, a.1);
    vstd::arithmetic::mul::lemma_mul_unary_negation(ab.0, a.2);
    vstd::arithmetic::mul::lemma_mul_unary_negation(ab.0, a.3);
    vstd::arithmetic::mul::lemma_mul_unary_negation(ab.1, a.1);
    vstd::arithmetic::mul::lemma_mul_unary_negation(ab.1, a.2);
    vstd::arithmetic::mul::lemma_mul_unary_negation(ab.1, a.3);
    vstd::arithmetic::mul::lemma_mul_unary_negation(ab.2, a.1);
    vstd::arithmetic::mul::lemma_mul_unary_negation(ab.2, a.2);
    vstd::arithmetic::mul::lemma_mul_unary_negation(ab.2, a.3);
    vstd::arithmetic::mul::lemma_mul_unary_negation(ab.3, a.1);
    vstd::arithmetic::mul::lemma_mul_unary_negation(ab.3, a.2);
    vstd::arithmetic::mul::lemma_mul_unary_negation(ab.3, a.3);
}

/// The squared magnitude is multiplicative over the rotor product, so a
/// product of unit rotors is unit.
pub proof fn lemma_rotor3_product_mag_sq(a: (int, int, int, int), b: (int, int, int, int))
    ensures
        rotor3_mag_sq(rotor3_product(a, b)) == rotor3_mag_sq(a) * rotor3_mag_sq(b),
{
    let ab = rotor3_product(a, b);
    lemma_magsq_product(a.0, a.1, a.2, a.3, b.0, b.1, b.2, b.3, ab.0, ab.1, ab.2, ab.3);
}

/// The identity rotor's sandwich returns every vector unchanged, up to
/// the fixed-point scale of the two rotor factors.
pub proof fn lemma_rotor3_identity_apply(v: (int, int, int))
    ensures
        rotor3_apply((SCALE as int, 0int, 0int, 0int), v) == (
            SCALE * SCALE * v.0,
            SCALE * SCALE * v.1,
            SCALE * SCALE * v.2,
        ),
{
    let f: int = SCALE as int;
    vstd::arithmetic::mul::lemma_mul_by_zero_is_zero(v.0);
    vstd::arithmetic::mul::lemma_mul_by_zero_is_zero(v.1);
    vstd::arithmetic::mul::lemma_mul_by_zero_is_zero(v.2);
    vstd::arithmetic::mul::lemma_mul_by_zero_is_zero(f * v.0 + 0int * v.1 + 0int * v.2);
    vstd::arithmetic::mul::lemma_mul_by_zero_is_zero(f * v.1 - 0int * v.0 + 0int * v.2);
    vstd::arithmetic::mul::lemma_mul_by_zero_is_zero(f * v.2 - 0int * v.0 - 0int * v.1);
    vstd::arithmetic::mul::lemma_mul_by_zero_is_zero(0int * v.2 - 0int * v.1 + 0int * v.0);
    vstd::arithmetic::mul::lemma_mul_is_associative(f, f, v.0);
    vstd::arithmetic::mul::lemma_mul_is_associative(f, f, v.1);
    vstd::arithmetic::mul::lemma_mul_is_associative(f, f, v.2);
    assert(f * (f * v.0 + 0int * v.1 + 0int * v.2) == f * (f * v.0));
    assert(f * (f * v.1 - 0int * v.0 + 0int * v.2) == f * (f * v.1));
    assert(f * (f * v.2 - 0int * v.0 - 0int * v.1) == f * (f * v.2));
}

/// A rotor built from an exact half-angle encoding in an exactly unit
/// rotor four-tuple has squared magnitude of exactly one unit.
pub proof fn lemma_rotor3_unit_mag_sq(r: (int, int, int, int))
    requires
        rotor3_mag_sq(r) == SCALE * SCALE,
    ensures
        rotor3_mag_sq(r) / SCALE as int == SCALE as int,
{
    assert((SCALE * SCALE) as int / SCALE as int == SCALE as int) by (nonlinear_arith);
}

/// One component of associativity: the scalar part of `(a b) c` and `a (b c)` agree.
#[verifier::rlimit(100)]
proof fn lemma_assoc_scalar(
    a0: int,
    a1: int,
    a2: int,
    a3: int,
    b0: int,
    b1: int,
    b2: int,
    b3: int,
    c0: int,
    c1: int,
    c2: int,
    c3: int,
    m0: int,
    m1: int,
    m2: int,
    m3: int,
    n0: int,
    n1: int,
    n2: int,
    n3: int,
)
    requires
        m0 == a0 * b0 - a1 * b1 - a2 * b2 - a3 * b3,
        m1 == a1 * b0 + a0 * b1 + a3 * b2 - a2 * b3,
        m2 == a2 * b0 + a0 * b2 - a3 * b1 + a1 * b3,
        m3 == a3 * b0 + a0 * b3 + a2 * b1 - a1 * b2,
        n0 == b0 * c0 - b1 * c1 - b2 * c2 - b3 * c3,
        n1 == b1 * c0 + b0 * c1 + b3 * c2 - b2 * c3,
        n2 == b2 * c0 + b0 * c2 - b3 * c1 + b1 * c3,
        n3 == b3 * c0 + b0 * c3 + b2 * c1 - b1 * c2,
    ensures
        m0 * c0 - m1 * c1 - m2 * c2 - m3 * c3 == a0 * n0 - a1 * n1 - a2 * n2 - a3 * n3,
{
    broadcast use vstd::arithmetic::mul::group_mul_properties;

}

/// One component of associativity: the xy part of `(a b) c` and `a (b c)` agree.
#[verifier::rlimit(100)]
proof fn lemma_assoc_xy(
    a0: int,
    a1: int,
    a2: int,
    a3: int,
    b0: int,
    b1: int,
    b2: int,
    b3: int,
    c0: int,
    c1: int,
    c2: int,
    c3: int,
    m0: int,
    m1: int,
    m2: int,
    m3: int,
    n0: int,
    n1: int,
    n2: int,
    n3: int,
)
    requires
        m0 == a0 * b0 - a1 * b1 - a2 * b2 - a3 * b3,
        m1 == a1 * b0 + a0 * b1 + a3 * b2 - a2 * b3,
        m2 == a2 * b0 + a0 * b2 - a3 * b1 + a1 * b3,
        m3 == a3 * b0 + a0 * b3 + a2 * b1 - a1 * b2,
        n0 == b0 * c0 - b1 * c1 - b2 * c2 - b3 * c3,
        n1 == b1 * c0 + b0 * c1 + b3 * c2 - b2 * c3,
        n2 == b2 * c0 + b0 * c2 - b3 * c1 + b1 * c3,
        n3 == b3 * c0 + b0 * c3 + b2 * c1 - b1 * c2,
    ensures
        m1 * c0 + m0 * c1 + m3 * c2 - m2 * c3 == a1 * n0 + a0 * n1 + a3 * n2 - a2 * n3,
{
    broadcast use vstd::arithmetic::mul::group_mul_properties;

}

/// One component of associativity: the xz part of `(a b) c` and `a (b c)` agree.
#[verifier::rlimit(100)]
proof fn lemma_assoc_xz(
    a0: int,
    a1: int,
    a2: int,
    a3: int,
    b0: int,
    b1: int,
    b2: int,
    b3: int,
    c0: int,
    c1: int,
    c2: int,
    c3: int,
    m0: int,
    m1: int,
    m2: int,
    m3: int,
    n0: int,
    n1: int,
    n2: int,
    n3: int,
)
    requires
        m0 == a0 * b0 - a1 * b1 - a2 * b2 - a3 * b3,
        m1 == a1 * b0 + a0 * b1 + a3 * b2 - a2 * b3,
        m2 == a2 * b0 + a0 * b2 - a3 * b1 + a1 * b3,
        m3 == a3 * b0 + a0 * b3 + a2 * b1 - a1 * b2,
        n0 == b0 * c0 - b1 * c1 - b2 * c2 - b3 * c3,
        n1 == b1 * c0 + b0 * c1 + b3 * c2 - b2 * c3,
        n2 == b2 * c0 + b0 * c2 - b3 * c1 + b1 * c3,
        n3 == b3 * c0 + b0 * c3 + b2 * c1 - b1 * c2,
    ensures
        m2 * c0 + m0 * c2 - m3 * c1 + m1 * c3 == a2 * n0 + a0 * n2 - a3 * n1 + a1 * n3,
{
    broadcast use vstd::arithmetic::mul::group_mul_properties;

}

/// One component of associativity: the yz part of `(a b) c` and `a (b c)` agree.
#[verifier::rlimit(100)]
proof fn lemma_assoc_yz(
    a0: int,
    a1: int,
    a2: int,
    a3: int,
    b0: int,
    b1: int,
    b2: int,
    b3: int,
    c0: int,
    c1: int,
    c2: int,
    c3: int,
    m0: int,
    m1: int,
    m2: int,
    m3: int,
    n0: int,
    n1: int,
    n2: int,
    n3: int,
)
    requires
        m0 == a0 * b0 - a1 * b1 - a2 * b2 - a3 * b3,
        m1 == a1 * b0 + a0 * b1 + a3 * b2 - a2 * b3,
        m2 == a2 * b0 + a0 * b2 - a3 * b1 + a1 * b3,
        m3 == a3 * b0 + a0 * b3 + a2 * b1 - a1 * b2,
        n0 == b0 * c0 - b1 * c1 - b2 * c2 - b3 * c3,
        n1 == b1 * c0 + b0 * c1 + b3 * c2 - b2 * c3,
        n2 == b2 * c0 + b0 * c2 - b3 * c1 + b1 * c3,
        n3 == b3 * c0 + b0 * c3 + b2 * c1 - b1 * c2,
    ensures
        m3 * c0 + m0 * c3 + m2 * c1 - m1 * c2 == a3 * n0 + a0 * n3 + a2 * n1 - a1 * n2,
{
    broadcast use vstd::arithmetic::mul::group_mul_properties;

}

/// One component of matrix equivalence: the x row of the matrix applied to `v` is the sandwich's x output.
#[verifier::rlimit(100)]
proof fn lemma_matrix_x(
    r0: int,
    r1: int,
    r2: int,
    r3: int,
    v0: int,
    v1: int,
    v2: int,
)
    ensures
        (r0 * r0 - r1 * r1 - r2 * r2 + r3 * r3) * v0 + (2 * (r0 * r1 - r2 * r3)) * v1 + (2 * (r0 * r2 + r1 * r3)) * v2 == r0 * (r0 * v0 + r1 * v1 + r2 * v2) + r1 * (r0 * v1 - r1 * v0 + r3 * v2) + r2 * (r0 * v2 - r2 * v0 - r3 * v1) + r3 * (r1 * v2 - r2 * v1 + r3 * v0),
{
    broadcast use vstd::arithmetic::mul::group_mul_properties;

}

/// One component of matrix equivalence: the y row of the matrix applied to `v` is the sandwich's y output.
#[verifier::rlimit(100)]
proof fn lemma_matrix_y(
    r0: int,
    r1: int,
    r2: int,
    r3: int,
    v0: int,
    v1: int,
    v2: int,
)
    ensures
        (r0 * r0 - r1 * r1 + r2 * r2 - r3 * r3) * v1 + (2 * (r0 * r3 - r1 * r2)) * v2 - (2 * (r2 * r3 + r0 * r1)) * v0 == r0 * (r0 * v1 - r1 * v0 + r3 * v2) - r1 * (r0 * v0 + r1 * v1 + r2 * v2) - r2 * (r1 * v2 - r2 * v1 + r3 * v0) + r3 * (r0 * v2 - r2 * v0 - r3 * v1),
{
    broadcast use vstd::arithmetic::mul::group_mul_properties;

}

/// One component of matrix equivalence: the z row of the matrix applied to `v` is the sandwich's z output.
#[verifier::rlimit(100)]
proof fn lemma_matrix_z(
    r0: int,
    r1: int,
    r2: int,
    r3: int,
    v0: int,
    v1: int,
    v2: int,
)
    ensures
        (r0 * r0 + r1 * r1 - r2 * r2 - r3 * r3) * v2 + (2 * (r1 * r3 - r0 * r2)) * v0 - (2 * (r0 * r3 + r1 * r2)) * v1 == r0 * (r0 * v2 - r2 * v0 - r3 * v1) + r1 * (r1 * v2 - r2 * v1 + r3 * v0) - r2 * (r0 * v0 + r1 * v1 + r2 * v2) - r3 * (r0 * v1 - r1 * v0 + r3 * v2),
{
    broadcast use vstd::arithmetic::mul::group_mul_properties;

}

/// One component of the sandwich of rotors: the scalar part of `(a b) reverse(a)` equals the expanded closed form.
#[verifier::rlimit(100)]
proof fn lemma_conjugate_scalar(
    a0: int,
    a1: int,
    a2: int,
    a3: int,
    b0: int,
    b1: int,
    b2: int,
    b3: int,
    m0: int,
    m1: int,
    m2: int,
    m3: int,
)
    requires
        m0 == a0 * b0 - a1 * b1 - a2 * b2 - a3 * b3,
        m1 == a1 * b0 + a0 * b1 + a3 * b2 - a2 * b3,
        m2 == a2 * b0 + a0 * b2 - a3 * b1 + a1 * b3,
        m3 == a3 * b0 + a0 * b3 + a2 * b1 - a1 * b2,
    ensures
        m0 * a0 + m1 * a1 + m2 * a2 + m3 * a3 == (a0 * a0 + a1 * a1 + a2 * a2 + a3 * a3) * b0,
{
    broadcast use vstd::arithmetic::mul::group_mul_properties;

}

/// One component of the sandwich of rotors: the xy part of `(a b) reverse(a)` equals the expanded closed form.
#[verifier::rlimit(100)]
proof fn lemma_conjugate_xy(
    a0: int,
    a1: int,
    a2: int,
    a3: int,
    b0: int,
    b1: int,
    b2: int,
    b3: int,
    m0: int,
    m1: int,
    m2: int,
    m3: int,
)
    requires
        m0 == a0 * b0 - a1 * b1 - a2 * b2 - a3 * b3,
        m1 == a1 * b0 + a0 * b1 + a3 * b2 - a2 * b3,
        m2 == a2 * b0 + a0 * b2 - a3 * b1 + a1 * b3,
        m3 == a3 * b0 + a0 * b3 + a2 * b1 - a1 * b2,
    ensures
        m1 * a0 - m0 * a1 - m3 * a2 + m2 * a3 == (a0 * a0 + a1 * a1 - a2 * a2 - a3 * a3) * b1 + (a1 * a2 + a0 * a3) * (2 * b2) + (a1 * a3 - a0 * a2) * (2 * b3),
{
    broadcast use vstd::arithmetic::mul::group_mul_properties;

}

/// One component of the sandwich of rotors: the xz part of `(a b) reverse(a)` equals the expanded closed form.
#[verifier::rlimit(100)]
proof fn lemma_conjugate_xz(
    a0: int,
    a1: int,
    a2: int,
    a3: int,
    b0: int,
    b1: int,
    b2: int,
    b3: int,
    m0: int,
    m1: int,
    m2: int,
    m3: int,
)
    requires
        m0 == a0 * b0 - a1 * b1 - a2 * b2 - a3 * b3,
        m1 == a1 * b0 + a0 * b1 + a3 * b2 - a2 * b3,
        m2 == a2 * b0 + a0 * b2 - a3 * b1 + a1 * b3,
        m3 == a3 * b0 + a0 * b3 + a2 * b1 - a1 * b2,
    ensures
        m2 * a0 - m0 * a2 + m3 * a1 - m1 * a3 == (a0 * a0 - a1 * a1 + a2 * a2 - a3 * a3) * b2 + (a1 * a2 - a0 * a3) * (2 * b1) + (a2 * a3 + a0 * a1) * (2 * b3),
{
    broadcast use vstd::arithmetic::mul::group_mul_properties;

}

/// One component of the sandwich of rotors: the yz part of `(a b) reverse(a)` equals the expanded closed form.
#[verifier::rlimit(100)]
proof fn lemma_conjugate_yz(
    a0: int,
    a1: int,
    a2: int,
    a3: int,
    b0: int,
    b1: int,
    b2: int,
    b3: int,
    m0: int,
    m1: int,
    m2: int,
    m3: int,
)
    requires
        m0 == a0 * b0 - a1 * b1 - a2 * b2 - a3 * b3,
        m1 == a1 * b0 + a0 * b1 + a3 * b2 - a2 * b3,
        m2 == a2 * b0 + a0 * b2 - a3 * b1 + a1 * b3,
        m3 == a3 * b0 + a0 * b3 + a2 * b1 - a1 * b2,
    ensures
        m3 * a0 - m0 * a3 - m2 * a1 + m1 * a2 == (a0 * a0 - a1 * a1 - a2 * a2 + a3 * a3) * b3 + (a1 * a3 + a0 * a2) * (2 * b1) + (a2 * a3 - a0 * a1) * (2 * b2),
{
    broadcast use vstd::arithmetic::mul::group_mul_properties;

}

/// The four-square identity: the squared magnitude of a rotor product is the product of squared magnitudes.
#[verifier::rlimit(100)]
proof fn lemma_magsq_product(
    a0: int,
    a1: int,
    a2: int,
    a3: int,
    b0: int,
    b1: int,
    b2: int,
    b3: int,
    m0: int,
    m1: int,
    m2: int,
    m3: int,
)
    requires
        m0 == a0 * b0 - a1 * b1 - a2 * b2 - a3 * b3,
        m1 == a1 * b0 + a0 * b1 + a3 * b2 - a2 * b3,
        m2 == a2 * b0 + a0 * b2 - a3 * b1 + a1 * b3,
        m3 == a3 * b0 + a0 * b3 + a2 * b1 - a1 * b2,
    ensures
        m0 * m0 + m1 * m1 + m2 * m2 + m3 * m3 == (a0 * a0 + a1 * a1 + a2 * a2 + a3 * a3) * (b0 * b0 + b1 * b1 + b2 * b2 + b3 * b3),
{
    broadcast use vstd::arithmetic::mul::group_mul_properties;

}

impl Rotor3 {
    /// Builds from a scalar part and a bivector part; no validation.
    pub fn new(s: i64, bv: Bivector3) -> (r: Self)
        ensures
            r@ == (s as int, bv@.0, bv@.1, bv@.2),
    {
        Rotor3 { s, bv }
    }

    /// The identity rotation.
    pub fn identity() -> (r: Self)
        ensures
            r@ == (SCALE as int, 0int, 0int, 0int),
    {
        Rotor3 { s: SCALE, bv: Bivector3 { xy: 0, xz: 0, yz: 0 } }
    }

    /// Builds the rotor that rotates by the angle whose half-angle cosine
    /// and sine are given, in the plane `plane` (ideally unit). The
    /// half-angle and the negated sine are the load-bearing sign
    /// convention of the whole algebra.
    pub fn from_angle_plane_parts(cos_half: i64, sin_half: i64, plane: Bivector3) -> (r: Self)
        requires
            comp_ok(sin_half as int),
            bivec3_ok(plane@),
        ensures
            r@.0 == cos_half as int,
            r@.1 == -sin_half * plane@.0 / SCALE as int,
            r@.2 == -sin_half * plane@.1 / SCALE as int,
            r@.3 == -sin_half * plane@.2 / SCALE as int,
    {
        proof {
            lemma_mul_bound(-sin_half as int, plane@.0, COMP_BOUND as int, COMP_BOUND as int);
            lemma_mul_bound(-sin_half as int, plane@.1, COMP_BOUND as int, COMP_BOUND as int);
            lemma_mul_bound(-sin_half as int, plane@.2, COMP_BOUND as int, COMP_BOUND as int);
        }
        Rotor3 {
            s: cos_half,
            bv: Bivector3 {
                xy: div_floor(-sin_half * plane.xy, SCALE),
                xz: div_floor(-sin_half * plane.xz, SCALE),
                yz: div_floor(-sin_half * plane.yz, SCALE),
            },
        }
    }

    /// The rotor product: the composition of the two rotations.
    pub fn mul(self, rhs: Self) -> (r: Self)
        requires
            rotor3_ok(self@),
            rotor3_ok(rhs@),
        ensures
            r@.0 == rotor3_product(self@, rhs@).0 / SCALE as int,
            r@.1 == rotor3_product(self@, rhs@).1 / SCALE as int,
            r@.2 == rotor3_product(self@, rhs@).2 / SCALE as int,
            r@.3 == rotor3_product(self@, rhs@).3 / SCALE as int,
    {
        proof {
            lemma_mul_bound(self@.0, rhs@.0, COMP_BOUND as int, COMP_BOUND as int);
            lemma_mul_bound(self@.0, rhs@.1, COMP_BOUND as int, COMP_BOUND as int);
            lemma_mul_bound(self@.0, rhs@.2, COMP_BOUND as int, COMP_BOUND as int);
            lemma_mul_bound(self@.0, rhs@.3, COMP_BOUND as int, COMP_BOUND as int);
            lemma_mul_bound(self@.1, rhs@.0, COMP_BOUND as int, COMP_BOUND as int);
            lemma_mul_bound(self@.1, rhs@.1, COMP_BOUND as int, COMP_BOUND as int);
            lemma_mul_bound(self@.1, rhs@.2, COMP_BOUND as int, COMP_BOUND as int);
            lemma_mul_bound(self@.1, rhs@.3, COMP_BOUND as int, COMP_BOUND as int);
            lemma_mul_bound(self@.2, rhs@.0, COMP_BOUND as int, COMP_BOUND as int);
            lemma_mul_bound(self@.2, rhs@.1, COMP_BOUND as int, COMP_BOUND as int);
            lemma_mul_bound(self@.2, rhs@.2, COMP_BOUND as int, COMP_BOUND as int);
            lemma_mul_bound(self@.2, rhs@.3, COMP_BOUND as int, COMP_BOUND as int);
            lemma_mul_bound(self@.3, rhs@.0, COMP_BOUND as int, COMP_BOUND as int);
            lemma_mul_bound(self@.3, rhs@.1, COMP_BOUND as int, COMP_BOUND as int);
            lemma_mul_bound(self@.3, rhs@.2, COMP_BOUND as int, COMP_BOUND as int);
            lemma_mul_bound(self@.3, rhs@.3, COMP_BOUND as int, COMP_BOUND as int);
        }
        Rotor3 {
            s: div_floor(
                self.s * rhs.s - self.bv.xy * rhs.bv.xy - self.bv.xz * rhs.bv.xz - self.bv.yz
                    * rhs.bv.yz,
                SCALE,
            ),
            bv: Bivector3 {
                xy: div_floor(
                    self.bv.xy * rhs.s + self.s * rhs.bv.xy + self.bv.yz * rhs.bv.xz - self.bv.xz
                        * rhs.bv.yz,
                    SCALE,
                ),
                xz: div_floor(
                    self.bv.xz * rhs.s + self.s * rhs.bv.xz - self.bv.yz * rhs.bv.xy + self.bv.xy
                        * rhs.bv.yz,
                    SCALE,
                ),
                yz: div_floor(
                    self.bv.yz * rhs.s + self.s * rhs.bv.yz + self.bv.xz * rhs.bv.xy - self.bv.xy
                        * rhs.bv.xz,
                    SCALE,
                ),
            },
        }
    }

    /// Componentwise sum; used for blending, not for composing rotations.
    pub fn add(self, rhs: Self) -> (r: Self)
        requires
            i64::MIN <= self@.0 + rhs@.0 <= i64::MAX,
            i64::MIN <= self@.1 + rhs@.1 <= i64::MAX,
            i64::MIN <= self@.2 + rhs@.2 <= i64::MAX,
            i64::MIN <= self@.3 + rhs@.3 <= i64::MAX,
        ensures
            r@ == (self@.0 + rhs@.0, self@.1 + rhs@.1, self@.2 + rhs@.2, self@.3 + rhs@.3),
    {
        Rotor3 {
            s: self.s + rhs.s,
            bv: Bivector3 {
                xy: self.bv.xy + rhs.bv.xy,
                xz: self.bv.xz + rhs.bv.xz,
                yz: self.bv.yz + rhs.bv.yz,
            },
        }
    }

    /// Componentwise difference.
    pub fn sub(self, rhs: Self) -> (r: Self)
        requires
            i64::MIN <= self@.0 - rhs@.0 <= i64::MAX,
            i64::MIN <= self@.1 - rhs@.1 <= i64::MAX,
            i64::MIN <= self@.2 - rhs@.2 <= i64::MAX,
            i64::MIN <= self@.3 - rhs@.3 <= i64::MAX,
        ensures
            r@ == (self@.0 - rhs@.0, self@.1 - rhs@.1, self@.2 - rhs@.2, self@.3 - rhs@.3),
    {
        Rotor3 {
            s: self.s - rhs.s,
            bv: Bivector3 {
                xy: self.bv.xy - rhs.bv.xy,
                xz: self.bv.xz - rhs.bv.xz,
                yz: self.bv.yz - rhs.bv.yz,
            },
        }
    }

    /// Scales all components by the fixed-point factor `k`.
    pub fn scale(self, k: i64) -> (r: Self)
        requires
            rotor3_ok(self@),
            comp_ok(k as int),
        ensures
            r@ == (
                self@.0 * k / SCALE as int,
                self@.1 * k / SCALE as int,
                self@.2 * k / SCALE as int,
                self@.3 * k / SCALE as int,
            ),
    {
        proof {
            lemma_mul_bound(self@.0, k as int, COMP_BOUND as int, COMP_BOUND as int);
            lemma_mul_bound(self@.1, k as int, COMP_BOUND as int, COMP_BOUND as int);
            lemma_mul_bound(self@.2, k as int, COMP_BOUND as int, COMP_BOUND as int);
            lemma_mul_bound(self@.3, k as int, COMP_BOUND as int, COMP_BOUND as int);
        }
        Rotor3 {
            s: div_floor(self.s * k, SCALE),
            bv: Bivector3 {
                xy: div_floor(self.bv.xy * k, SCALE),
                xz: div_floor(self.bv.xz * k, SCALE),
                yz: div_floor(self.bv.yz * k, SCALE),
            },
        }
    }

    /// Divides all components by the fixed-point factor `k`.
    pub fn div_scale(self, k: i64) -> (r: Self)
        requires
            rotor3_ok(self@),
            k != 0,
        ensures
            r@ == (
                self@.0 * SCALE / k as int,
                self@.1 * SCALE / k as int,
                self@.2 * SCALE / k as int,
                self@.3 * SCALE / k as int,
            ),
    {
        proof {
            lemma_mul_bound(self@.0, SCALE as int, COMP_BOUND as int, SCALE as int);
            lemma_mul_bound(self@.1, SCALE as int, COMP_BOUND as int, SCALE as int);
            lemma_mul_bound(self@.2, SCALE as int, COMP_BOUND as int, SCALE as int);
            lemma_mul_bound(self@.3, SCALE as int, COMP_BOUND as int, SCALE as int);
        }
        Rotor3 {
            s: div_signed(self.s * SCALE, k),
            bv: Bivector3 {
                xy: div_signed(self.bv.xy * SCALE, k),
                xz: div_signed(self.bv.xz * SCALE, k),
                yz: div_signed(self.bv.yz * SCALE, k),
            },
        }
    }
}

impl Rotor for Rotor3 {
    type Vector = Vector3;

    type Matrix = Mat3;

    open spec fn bounded(&self) -> bool {
        rotor3_ok(self@)
    }

    open spec fn nonzero(&self) -> bool {
        self@ != (0int, 0int, 0int, 0int)
    }

    open spec fn vec_bounded(v: Vector3) -> bool {
        vec3_ok(v@)
    }

    /// The magnitude of the four-component element.
    fn mag(&self) -> (r: i64)
        ensures
            r == sqrt_floor(rotor3_mag_sq(self@) as nat),
    {
        proof {
            lemma_mul_bound(self@.0, self@.0, COMP_BOUND as int, COMP_BOUND as int);
            lemma_mul_bound(self@.1, self@.1, COMP_BOUND as int, COMP_BOUND as int);
            lemma_mul_bound(self@.2, self@.2, COMP_BOUND as int, COMP_BOUND as int);
            lemma_mul_bound(self@.3, self@.3, COMP_BOUND as int, COMP_BOUND as int);
            lemma_square_nonneg(self@.0);
            lemma_square_nonneg(self@.1);
            lemma_square_nonneg(self@.2);
            lemma_square_nonneg(self@.3);
        }
        isqrt(
            self.s * self.s + self.bv.xy * self.bv.xy + self.bv.xz * self.bv.xz + self.bv.yz
                * self.bv.yz,
        )
    }

    /// The squared magnitude of the four-component element.
    fn mag_sq(&self) -> (r: i64)
        ensures
            r == rotor3_mag_sq(self@) / SCALE as int,
    {
        proof {
            lemma_mul_bound(self@.0, self@.0, COMP_BOUND as int, COMP_BOUND as int);
            lemma_mul_bound(self@.1, self@.1, COMP_BOUND as int, COMP_BOUND as int);
            lemma_mul_bound(self@.2, self@.2, COMP_BOUND as int, COMP_BOUND as int);
            lemma_mul_bound(self@.3, self@.3, COMP_BOUND as int, COMP_BOUND as int);
        }
        div_floor(
            self.s * self.s + self.bv.xy * self.bv.xy + self.bv.xz * self.bv.xz + self.bv.yz
                * self.bv.yz,
            SCALE,
        )
    }

    /// The dot product of two rotors.
    fn dot(&self, other: Self) -> (r: i64)
        ensures
            r == rotor3_dot(self@, other@) / SCALE as int,
    {
        proof {
            lemma_mul_bound(self@.0, other@.0, COMP_BOUND as int, COMP_BOUND as int);
            lemma_mul_bound(self@.1, other@.1, COMP_BOUND as int, COMP_BOUND as int);
            lemma_mul_bound(self@.2, other@.2, COMP_BOUND as int, COMP_BOUND as int);
            lemma_mul_bound(self@.3, other@.3, COMP_BOUND as int, COMP_BOUND as int);
        }
        div_floor(
            self.s * other.s + self.bv.xy * other.bv.xy + self.bv.xz * other.bv.xz + self.bv.yz
                * other.bv.yz,
            SCALE,
        )
    }

    /// Rescales all components so the magnitude becomes one unit.
    /// Undefined on a zero rotor, which is excluded.
    fn normalize(&mut self)
        ensures
            final(self)@.0 == old(self)@.0 * SCALE / sqrt_floor(
                rotor3_mag_sq(old(self)@) as nat,
            ) as int,
            final(self)@.1 == old(self)@.1 * SCALE / sqrt_floor(
                rotor3_mag_sq(old(self)@) as nat,
            ) as int,
            final(self)@.2 == old(self)@.2 * SCALE / sqrt_floor(
                rotor3_mag_sq(old(self)@) as nat,
            ) as int,
            final(self)@.3 == old(self)@.3 * SCALE / sqrt_floor(
                rotor3_mag_sq(old(self)@) as nat,
            ) as int,
    {
        proof {
            lemma_mul_bound(self@.0, self@.0, COMP_BOUND as int, COMP_BOUND as int);
            lemma_mul_bound(self@.1, self@.1, COMP_BOUND as int, COMP_BOUND as int);
            lemma_mul_bound(self@.2, self@.2, COMP_BOUND as int, COMP_BOUND as int);
            lemma_mul_bound(self@.3, self@.3, COMP_BOUND as int, COMP_BOUND as int);
            lemma_square_nonneg(self@.0);
            lemma_square_nonneg(self@.1);
            lemma_square_nonneg(self@.2);
            lemma_square_nonneg(self@.3);
            assert(rotor3_mag_sq(self@) >= 1) by (nonlinear_arith)
                requires
                    self@ != (0int, 0int, 0int, 0int),
            ;
            lemma_mul_bound(self@.0, SCALE as int, COMP_BOUND as int, SCALE as int);
            lemma_mul_bound(self@.1, SCALE as int, COMP_BOUND as int, SCALE as int);
            lemma_mul_bound(self@.2, SCALE as int, COMP_BOUND as int, SCALE as int);
            lemma_mul_bound(self@.3, SCALE as int, COMP_BOUND as int, SCALE as int);
        }
        let m: i64 = isqrt(
            self.s * self.s + self.bv.xy * self.bv.xy + self.bv.xz * self.bv.xz + self.bv.yz
                * self.bv.yz,
        );
        proof {
            assert(m >= 1) by (nonlinear_arith)
                requires
                    m * m <= rotor3_mag_sq(self@),
                    rotor3_mag_sq(self@) < (m + 1) * (m + 1),
                    rotor3_mag_sq(self@) >= 1,
                    m >= 0,
            ;
        }
        self.s = div_floor(self.s * SCALE, m);
        self.bv.xy = div_floor(self.bv.xy * SCALE, m);
        self.bv.xz = div_floor(self.bv.xz * SCALE, m);
        self.bv.yz = div_floor(self.bv.yz * SCALE, m);
    }

    /// A normalized copy.
    fn normalized(&self) -> (r: Self)
        ensures
            r@.0 == self@.0 * SCALE / sqrt_floor(rotor3_mag_sq(self@) as nat) as int,
            r@.1 == self@.1 * SCALE / sqrt_floor(rotor3_mag_sq(self@) as nat) as int,
            r@.2 == self@.2 * SCALE / sqrt_floor(rotor3_mag_sq(self@) as nat) as int,
            r@.3 == self@.3 * SCALE / sqrt_floor(rotor3_mag_sq(self@) as nat) as int,
    {
        let mut r = *self;
        r.normalize();
        r
    }

    /// Negates the bivector part in place: the algebraic conjugate, and
    /// the inverse rotation for a unit rotor.
    fn reverse(&mut self)
        ensures
            final(self)@ == rotor3_reverse(old(self)@),
    {
        self.bv.xy = -self.bv.xy;
        self.bv.xz = -self.bv.xz;
        self.bv.yz = -self.bv.yz;
    }

    /// A reversed copy.
    fn reversed(&self) -> (r: Self)
        ensures
            r@ == rotor3_reverse(self@),
    {
        let mut r = *self;
        r.reverse();
        r
    }

    /// Transforms this rotor by `other`, in place: the result is the
    /// sandwich `other * self * reverse(other)`, computed through the
    /// expanded closed form.
    fn rotate_by(&mut self, other: Self)
        ensures
            final(self)@.0 == rotor3_product(
                rotor3_product(other@, old(self)@),
                rotor3_reverse(other@),
            ).0 / (SCALE * SCALE) as int,
            final(self)@.1 == rotor3_product(
                rotor3_product(other@, old(self)@),
                rotor3_reverse(other@),
            ).1 / (SCALE * SCALE) as int,
            final(self)@.2 == rotor3_product(
                rotor3_product(other@, old(self)@),
                rotor3_reverse(other@),
            ).2 / (SCALE * SCALE) as int,
            final(self)@.3 == rotor3_product(
                rotor3_product(other@, old(self)@),
                rotor3_reverse(other@),
            ).3 / (SCALE * SCALE) as int,
    {
        proof {
            lemma_rotor3_conjugation(other@, self@);
            lemma_mul_bound(other@.0, other@.0, COMP_BOUND as int, COMP_BOUND as int);
            lemma_mul_bound(other@.0, other@.1, COMP_BOUND as int, COMP_BOUND as int);
            lemma_mul_bound(other@.0, other@.2, COMP_BOUND as int, COMP_BOUND as int);
            lemma_mul_bound(other@.0, other@.3, COMP_BOUND as int, COMP_BOUND as int);
            lemma_mul_bound(other@.1, other@.1, COMP_BOUND as int, COMP_BOUND as int);
            lemma_mul_bound(other@.1, other@.2, COMP_BOUND as int, COMP_BOUND as int);
            lemma_mul_bound(other@.1, other@.3, COMP_BOUND as int, COMP_BOUND as int);
            lemma_mul_bound(other@.2, other@.2, COMP_BOUND as int, COMP_BOUND as int);
            lemma_mul_bound(other@.2, other@.3, COMP_BOUND as int, COMP_BOUND as int);
            lemma_mul_bound(other@.3, other@.3, COMP_BOUND as int, COMP_BOUND as int);
        }
        let b = *self;
        let a = other;
        let sa2: i64 = a.s * a.s;
        let baxy2: i64 = a.bv.xy * a.bv.xy;
        let baxz2: i64 = a.bv.xz * a.bv.xz;
        let bayz2: i64 = a.bv.yz * a.bv.yz;
        let sa_baxy: i64 = a.s * a.bv.xy;
        let sa_baxz: i64 = a.s * a.bv.xz;
        let sa_bayz: i64 = a.s * a.bv.yz;
        let baxy_baxz: i64 = a.bv.xy * a.bv.xz;
        let baxy_bayz: i64 = a.bv.xy * a.bv.yz;
        let baxz_bayz: i64 = a.bv.xz * a.bv.yz;
        proof {
            let q: int = 4 * COMP_BOUND * COMP_BOUND;
            lemma_mul_bound(sa2 + baxy2 + baxz2 + bayz2, b@.0, q, COMP_BOUND as int);
            lemma_mul_bound(sa2 + baxy2 - baxz2 - bayz2, b@.1, q, COMP_BOUND as int);
            lemma_mul_bound(sa2 - baxy2 + baxz2 - bayz2, b@.2, q, COMP_BOUND as int);
            lemma_mul_bound(sa2 - baxy2 - baxz2 + bayz2, b@.3, q, COMP_BOUND as int);
            lemma_mul_bound(baxy_baxz + sa_bayz, 2 * b@.2, q, 2 * COMP_BOUND);
            lemma_mul_bound(baxy_bayz - sa_baxz, 2 * b@.3, q, 2 * COMP_BOUND);
            lemma_mul_bound(baxy_baxz - sa_bayz, 2 * b@.1, q, 2 * COMP_BOUND);
            lemma_mul_bound(baxz_bayz + sa_baxy, 2 * b@.3, q, 2 * COMP_BOUND);
            lemma_mul_bound(baxy_bayz + sa_baxz, 2 * b@.1, q, 2 * COMP_BOUND);
            lemma_mul_bound(baxz_bayz - sa_baxy, 2 * b@.2, q, 2 * COMP_BOUND);
        }
        self.s = div_floor((sa2 + baxy2 + baxz2 + bayz2) * b.s, SCALE * SCALE);
        self.bv.xy = div_floor(
            (sa2 + baxy2 - baxz2 - bayz2) * b.bv.xy + (baxy_baxz + sa_bayz) * (2 * b.bv.xz) + (
            baxy_bayz - sa_baxz) * (2 * b.bv.yz),
            SCALE * SCALE,
        );
        self.bv.xz = div_floor(
            (sa2 - baxy2 + baxz2 - bayz2) * b.bv.xz + (baxy_baxz - sa_bayz) * (2 * b.bv.xy) + (
            baxz_bayz + sa_baxy) * (2 * b.bv.yz),
            SCALE * SCALE,
        );
        self.bv.yz = div_floor(
            (sa2 - baxy2 - baxz2 + bayz2) * b.bv.yz + (baxy_bayz + sa_baxz) * (2 * b.bv.xy) + (
            baxz_bayz - sa_baxy) * (2 * b.bv.xz),
            SCALE * SCALE,
        );
    }

    /// A copy transformed by `other`.
    fn rotated_by(&self, other: Self) -> (r: Self)
        ensures
            r@.0 == rotor3_product(rotor3_product(other@, self@), rotor3_reverse(other@)).0 / (
            SCALE * SCALE) as int,
            r@.1 == rotor3_product(rotor3_product(other@, self@), rotor3_reverse(other@)).1 / (
            SCALE * SCALE) as int,
            r@.2 == rotor3_product(rotor3_product(other@, self@), rotor3_reverse(other@)).2 / (
            SCALE * SCALE) as int,
            r@.3 == rotor3_product(rotor3_product(other@, self@), rotor3_reverse(other@)).3 / (
            SCALE * SCALE) as int,
    {
        let mut r = *self;
        r.rotate_by(other);
        r
    }

    /// Rotates a vector in place by the double-sided sandwich product,
    /// expanded into four intermediate and three final terms.
    fn rotate_vec(&self, vec: &mut Vector3)
        ensures
            final(vec)@.0 == rotor3_apply(self@, old(vec)@).0 / (SCALE * SCALE) as int,
            final(vec)@.1 == rotor3_apply(self@, old(vec)@).1 / (SCALE * SCALE) as int,
            final(vec)@.2 == rotor3_apply(self@, old(vec)@).2 / (SCALE * SCALE) as int,
    {
        proof {
            lemma_mul_bound(self@.0, old(vec)@.0, COMP_BOUND as int, crate::fixed::VEC_BOUND as int);
            lemma_mul_bound(self@.0, old(vec)@.1, COMP_BOUND as int, crate::fixed::VEC_BOUND as int);
            lemma_mul_bound(self@.0, old(vec)@.2, COMP_BOUND as int, crate::fixed::VEC_BOUND as int);
            lemma_mul_bound(self@.1, old(vec)@.0, COMP_BOUND as int, crate::fixed::VEC_BOUND as int);
            lemma_mul_bound(self@.1, old(vec)@.1, COMP_BOUND as int, crate::fixed::VEC_BOUND as int);
            lemma_mul_bound(self@.1, old(vec)@.2, COMP_BOUND as int, crate::fixed::VEC_BOUND as int);
            lemma_mul_bound(self@.2, old(vec)@.0, COMP_BOUND as int, crate::fixed::VEC_BOUND as int);
            lemma_mul_bound(self@.2, old(vec)@.1, COMP_BOUND as int, crate::fixed::VEC_BOUND as int);
            lemma_mul_bound(self@.2, old(vec)@.2, COMP_BOUND as int, crate::fixed::VEC_BOUND as int);
            lemma_mul_bound(self@.3, old(vec)@.0, COMP_BOUND as int, crate::fixed::VEC_BOUND as int);
            lemma_mul_bound(self@.3, old(vec)@.1, COMP_BOUND as int, crate::fixed::VEC_BOUND as int);
            lemma_mul_bound(self@.3, old(vec)@.2, COMP_BOUND as int, crate::fixed::VEC_BOUND as int);
        }
        let fx: i64 = self.s * vec.x + self.bv.xy * vec.y + self.bv.xz * vec.z;
        let fy: i64 = self.s * vec.y - self.bv.xy * vec.x + self.bv.yz * vec.z;
        let fz: i64 = self.s * vec.z - self.bv.xz * vec.x - self.bv.yz * vec.y;
        let fw: i64 = self.bv.xy * vec.z - self.bv.xz * vec.y + self.bv.yz * vec.x;
        proof {
            let fb: int = 3 * COMP_BOUND * crate::fixed::VEC_BOUND;
            lemma_mul_bound(self@.0, fx as int, COMP_BOUND as int, fb);
            lemma_mul_bound(self@.0, fy as int, COMP_BOUND as int, fb);
            lemma_mul_bound(self@.0, fz as int, COMP_BOUND as int, fb);
            lemma_mul_bound(self@.1, fx as int, COMP_BOUND as int, fb);
            lemma_mul_bound(self@.1, fy as int, COMP_BOUND as int, fb);
            lemma_mul_bound(self@.1, fw as int, COMP_BOUND as int, fb);
            lemma_mul_bound(self@.2, fx as int, COMP_BOUND as int, fb);
            lemma_mul_bound(self@.2, fz as int, COMP_BOUND as int, fb);
            lemma_mul_bound(self@.2, fw as int, COMP_BOUND as int, fb);
            lemma_mul_bound(self@.3, fy as int, COMP_BOUND as int, fb);
            lemma_mul_bound(self@.3, fz as int, COMP_BOUND as int, fb);
            lemma_mul_bound(self@.3, fw as int, COMP_BOUND as int, fb);
        }
        vec.x = div_floor(
            self.s * fx + self.bv.xy * fy + self.bv.xz * fz + self.bv.yz * fw,
            SCALE * SCALE,
        );
        vec.y = div_floor(
            self.s * fy - self.bv.xy * fx - self.bv.xz * fw + self.bv.yz * fz,
            SCALE * SCALE,
        );
        vec.z = div_floor(
            self.s * fz + self.bv.xy * fw - self.bv.xz * fx - self.bv.yz * fy,
            SCALE * SCALE,
        );
    }

    /// The rotation matrix equivalent to this rotor.
    fn into_matrix(&self) -> (r: Mat3)
        ensures
            r@.0.0 == rotor3_matrix(self@).0.0 / SCALE as int,
            r@.0.1 == rotor3_matrix(self@).0.1 / SCALE as int,
            r@.0.2 == rotor3_matrix(self@).0.2 / SCALE as int,
            r@.1.0 == rotor3_matrix(self@).1.0 / SCALE as int,
            r@.1.1 == rotor3_matrix(self@).1.1 / SCALE as int,
            r@.1.2 == rotor3_matrix(self@).1.2 / SCALE as int,
            r@.2.0 == rotor3_matrix(self@).2.0 / SCALE as int,
            r@.2.1 == rotor3_matrix(self@).2.1 / SCALE as int,
            r@.2.2 == rotor3_matrix(self@).2.2 / SCALE as int,
    {
        proof {
            lemma_mul_bound(self@.0, self@.0, COMP_BOUND as int, COMP_BOUND as int);
            lemma_mul_bound(self@.1, self@.1, COMP_BOUND as int, COMP_BOUND as int);
            lemma_mul_bound(self@.2, self@.2, COMP_BOUND as int, COMP_BOUND as int);
            lemma_mul_bound(self@.3, self@.3, COMP_BOUND as int, COMP_BOUND as int);
            lemma_mul_bound(self@.0, self@.1, COMP_BOUND as int, COMP_BOUND as int);
            lemma_mul_bound(self@.0, self@.2, COMP_BOUND as int, COMP_BOUND as int);
            lemma_mul_bound(self@.0, self@.3, COMP_BOUND as int, COMP_BOUND as int);
            lemma_mul_bound(self@.2, self@.3, COMP_BOUND as int, COMP_BOUND as int);
            lemma_mul_bound(self@.1, self@.3, COMP_BOUND as int, COMP_BOUND as int);
            lemma_mul_bound(self@.1, self@.2, COMP_BOUND as int, COMP_BOUND as int);
        }
        let s2: i64 = self.s * self.s;
        let bxy2: i64 = self.bv.xy * self.bv.xy;
        let bxz2: i64 = self.bv.xz * self.bv.xz;
        let byz2: i64 = self.bv.yz * self.bv.yz;
        let s_bxy: i64 = self.s * self.bv.xy;
        let s_bxz: i64 = self.s * self.bv.xz;
        let s_byz: i64 = self.s * self.bv.yz;
        let bxz_byz: i64 = self.bv.xz * self.bv.yz;
        let bxy_byz: i64 = self.bv.xy * self.bv.yz;
        let bxy_bxz: i64 = self.bv.xy * self.bv.xz;
        Mat3 {
            cols: [
                Vector3 {
                    x: div_floor(s2 - bxy2 - bxz2 + byz2, SCALE),
                    y: div_floor(-(2 * (bxz_byz + s_bxy)), SCALE),
                    z: div_floor(2 * (bxy_byz - s_bxz), SCALE),
                },
                Vector3 {
                    x: div_floor(2 * (s_bxy - bxz_byz), SCALE),
                    y: div_floor(s2 - bxy2 + bxz2 - byz2, SCALE),
                    z: div_floor(-(2 * (s_byz + bxy_bxz)), SCALE),
                },
                Vector3 {
                    x: div_floor(2 * (s_bxz + bxy_byz), SCALE),
                    y: div_floor(2 * (s_byz - bxy_bxz), SCALE),
                    z: div_floor(s2 + bxy2 - bxz2 - byz2, SCALE),
                },
            ],
        }
    }
}

} // verus!
