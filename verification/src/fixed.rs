//! The fixed-point ground the whole crate is built on: the scale constant,
//! floor division with an exact contract, an integer square root, and the
//! component bounds under which the polynomial formulas cannot overflow.

use vstd::prelude::*;

verus! {

use vstd::arithmetic::div_mod::lemma_fundamental_div_mod;

/// One whole unit. A stored value `x: i64` denotes the real number
/// `x / SCALE`, so the representable step is `2^-16`.
pub const SCALE: i64 = 65536;

/// Largest component magnitude accepted by the rotor and bivector product
/// formulas (2 units). Unit rotors keep every component within one unit,
/// so this leaves factor-of-two headroom while the degree-3 sandwich
/// polynomials still fit in an `i64`.
pub const COMP_BOUND: i64 = 131072;

/// Largest vector component magnitude accepted by the rotation formulas
/// (512 units).
pub const VEC_BOUND: i64 = 33554432;

/// True when `x` is an acceptable rotor, bivector or scalar component.
pub open spec fn comp_ok(x: int) -> bool {
    -COMP_BOUND <= x <= COMP_BOUND
}

/// True when `x` is an acceptable vector component.
pub open spec fn vec_ok(x: int) -> bool {
    -VEC_BOUND <= x <= VEC_BOUND
}

/// The quotient of floor division by a positive divisor stays between the
/// dividend and zero.
pub proof fn lemma_div_quotient_range(x: int, d: int)
    requires
        d >= 1,
    ensures
        x >= 0 ==> 0 <= x / d <= x,
        x < 0 ==> x <= x / d <= 0,
{
    lemma_fundamental_div_mod(x, d);
    let q = x / d;
    let r = x % d;
    if x >= 0 {
        assert(q >= 0) by (nonlinear_arith)
            requires
                x == d * q + r,
                0 <= r < d,
                x >= 0,
                d >= 1,
        ;
        assert(q <= x) by (nonlinear_arith)
            requires
                x == d * q + r,
                0 <= r < d,
                q >= 0,
                d >= 1,
        ;
    } else {
        assert(q <= 0) by (nonlinear_arith)
            requires
                x == d * q + r,
                0 <= r < d,
                x < 0,
                d >= 1,
        ;
        assert(q >= x) by (nonlinear_arith)
            requires
                x == d * q + r,
                0 <= r < d,
                x < 0,
                q <= 0,
                d >= 1,
        ;
    }
}

/// Floor division by a positive divisor: exactly the `/` of specifications.
pub fn div_floor(x: i64, d: i64) -> (r: i64)
    requires
        d > 0,
    ensures
        r == x as int / d as int,
{
    proof {
        lemma_div_quotient_range(x as int, d as int);
    }
    x.checked_div_euclid(d).unwrap()
}

/// With a negative divisor, the quotient of Euclidean division stays
/// between `-x` and zero.
pub proof fn lemma_div_quotient_range_neg(x: int, d: int)
    requires
        d <= -1,
    ensures
        x >= 0 ==> -x <= x / d <= 0,
        x < 0 ==> 0 <= x / d <= -x,
{
    lemma_fundamental_div_mod(x, d);
    let q = x / d;
    let r = x % d;
    if x >= 0 {
        assert(q <= 0) by (nonlinear_arith)
            requires
                x == d * q + r,
                0 <= r < -d,
                x >= 0,
                d <= -1,
        ;
        assert(q >= -x) by (nonlinear_arith)
            requires
                x == d * q + r,
                0 <= r < -d,
                x >= 0,
                q <= 0,
                d <= -1,
        ;
    } else {
        assert(q >= 0) by (nonlinear_arith)
            requires
                x == d * q + r,
                0 <= r < -d,
                x < 0,
                d <= -1,
        ;
        assert(q <= -x) by (nonlinear_arith)
            requires
                x == d * q + r,
                0 <= r < -d,
                x < 0,
                q >= 0,
                d <= -1,
        ;
    }
}

/// Euclidean division by any nonzero divisor, as `/` means in
/// specifications. The dividend is kept away from `i64::MIN` so the
/// quotient always fits.
pub fn div_signed(x: i64, d: i64) -> (r: i64)
    requires
        d != 0,
        x > i64::MIN,
    ensures
        r == x as int / d as int,
{
    proof {
        if d > 0 {
            lemma_div_quotient_range(x as int, d as int);
        } else {
            lemma_div_quotient_range_neg(x as int, d as int);
        }
    }
    x.checked_div_euclid(d).unwrap()
}

/// A square is never negative.
pub proof fn lemma_square_nonneg(x: int)
    by (nonlinear_arith)
    ensures
        x * x >= 0,
{
}

/// The product of two values is bounded by the product of their bounds.
pub proof fn lemma_mul_bound(x: int, y: int, a: int, b: int)
    by (nonlinear_arith)
    requires
        -a <= x <= a,
        -b <= y <= b,
        0 <= a,
        0 <= b,
    ensures
        -(a * b) <= x * y <= a * b,
{
}

/// The floor of the square root of `n`, defined by counting up.
pub open spec fn sqrt_floor(n: nat) -> nat
    decreases n,
{
    if n == 0 {
        0
    } else {
        let r = sqrt_floor((n - 1) as nat);
        if (r + 1) * (r + 1) <= n {
            r + 1
        } else {
            r
        }
    }
}

/// `sqrt_floor(n)` is the greatest `r` with `r * r <= n`.
pub proof fn lemma_sqrt_floor(n: nat)
    ensures
        sqrt_floor(n) * sqrt_floor(n) <= n,
        n < (sqrt_floor(n) + 1) * (sqrt_floor(n) + 1),
    decreases n,
{
    if n > 0 {
        lemma_sqrt_floor((n - 1) as nat);
        let r = sqrt_floor((n - 1) as nat);
        if (r + 1) * (r + 1) <= n {
            assert(sqrt_floor(n) == r + 1);
            assert(n < (r + 2) * (r + 2)) by (nonlinear_arith)
                requires
                    n - 1 < (r + 1) * (r + 1),
                    r >= 0,
            ;
        } else {
            assert(sqrt_floor(n) == r);
        }
    } else {
        assert(sqrt_floor(0) == 0);
        assert(0nat * 0nat <= 0nat);
        assert(0nat < (0nat + 1) * (0nat + 1)) by (nonlinear_arith);
    }
}

/// Only one value can be a floor square root of `n`.
pub proof fn lemma_isqrt_unique(a: int, b: int, n: int)
    by (nonlinear_arith)
    requires
        0 <= a,
        0 <= b,
        a * a <= n < (a + 1) * (a + 1),
        b * b <= n < (b + 1) * (b + 1),
    ensures
        a == b,
{
}

/// Integer square root: computes `sqrt_floor`.
pub fn isqrt(n: i64) -> (r: i64)
    requires
        n >= 0,
    ensures
        r == sqrt_floor(n as nat),
        0 <= r,
        r * r <= n,
        n < (r + 1) * (r + 1),
{
    if n == 0 {
        return 0;
    }
    // The answer lies in [lo, hi): lo * lo <= n < hi * hi.
    let mut lo: i64 = 0;
    let mut hi: i64 = 3037000500;
    proof {
        assert(n < 3037000500 * 3037000500) by (nonlinear_arith)
            requires
                n <= 0x7fff_ffff_ffff_ffff,
        ;
    }
    while lo + 1 < hi
        invariant
            0 <= lo < hi <= 3037000500,
            lo * lo <= n,
            n < hi * hi,
        decreases hi - lo,
    {
        let mid: i64 = lo + (hi - lo) / 2;
        proof {
            assert(mid * mid <= 3037000499 * 3037000499) by (nonlinear_arith)
                requires
                    0 <= mid <= 3037000499,
            ;
        }
        if mid * mid <= n {
            lo = mid;
        } else {
            hi = mid;
        }
    }
    proof {
        lemma_sqrt_floor(n as nat);
        lemma_isqrt_unique(lo as int, sqrt_floor(n as nat) as int, n as int);
    }
    lo
}

} // verus!
