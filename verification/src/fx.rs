//! Fixed-point scalar arithmetic.
//!
//! Every scalar quantity of the library — coordinates, angles, radii,
//! sensitivities, scroll amounts — is an `i64` carrying six decimal places:
//! a value of `1_000_000` stands for one unit (one metre, one radian, one
//! second). All arithmetic is exact integer arithmetic over this
//! representation, so every function here has a complete mathematical
//! specification.

use vstd::prelude::*;

verus! {

/// Number of ticks per unit: values carry six decimal places.
pub const FX_SCALE: i64 = 1_000_000;

/// One unit.
pub const FX_ONE: i64 = 1_000_000;

/// Half a revolution, rounded so that it is exactly twice `FX_HALF_PI`.
pub const FX_PI: i64 = 3_141_592;

/// A quarter revolution.
pub const FX_HALF_PI: i64 = 1_570_796;

/// A full revolution, exactly twice `FX_PI`.
pub const FX_TWO_PI: i64 = 6_283_184;

/// Comparison tolerance of one thousandth of a unit.
pub const FX_EPSILON: i64 = 1_000;

/// Greatest coordinate, radius or angle magnitude the library stores
/// (one million units). Stored state is clamped into this range so that
/// every product taken by the controllers fits in 128-bit intermediates.
pub const FX_MAX: i64 = 1_000_000_000_000;

/// Least orbit radius (0.05 units): the floor that keeps an orbit camera
/// away from its focus point.
pub const MIN_RADIUS: i64 = 50_000;

/// Greatest magnitude accepted for per-frame inputs: sensitivities,
/// motion and scroll deltas, window and viewport sizes, and frame times
/// (one thousand units).
pub const FX_INPUT_MAX: i64 = 1_000_000_000;

/// Product of two fixed-point values, truncated toward zero as the
/// executable code truncates.
pub open spec fn fx_mul_spec(a: int, b: int) -> int {
    if a * b >= 0 {
        (a * b) / (FX_SCALE as int)
    } else {
        -((-(a * b)) / (FX_SCALE as int))
    }
}

/// Quotient of two fixed-point values (positive divisor), truncated
/// toward zero.
pub open spec fn fx_div_spec(a: int, b: int) -> int {
    if a >= 0 {
        (a * FX_SCALE) / b
    } else {
        -((-a * FX_SCALE) / b)
    }
}

pub open spec fn abs_spec(a: int) -> int {
    if a >= 0 {
        a
    } else {
        -a
    }
}

pub open spec fn clamp_spec(x: int, lo: int, hi: int) -> int {
    if x < lo {
        lo
    } else if x > hi {
        hi
    } else {
        x
    }
}

pub open spec fn max_spec(a: int, b: int) -> int {
    if a >= b {
        a
    } else {
        b
    }
}

pub open spec fn min_spec(a: int, b: int) -> int {
    if a <= b {
        a
    } else {
        b
    }
}

/// Half of `a`, truncated toward zero.
pub open spec fn half_spec(a: int) -> int {
    if a >= 0 {
        a / 2
    } else {
        -((-a) / 2)
    }
}

pub fn fx_half(a: i64) -> (r: i64)
    requires
        a != i64::MIN,
    ensures
        r as int == half_spec(a as int),
{
    if a >= 0 {
        ((a as u64) / 2) as i64
    } else {
        let m: u64 = (-a) as u64;
        -((m / 2) as i64)
    }
}

/// Magnitude of `a` as an unsigned value (total, also at `i64::MIN`).
pub fn fx_abs_u(a: i64) -> (r: u64)
    ensures
        r == abs_spec(a as int),
{
    if a >= 0 {
        a as u64
    } else {
        let wide: i128 = -(a as i128);
        wide as u64
    }
}

/// Magnitude of `a`; the greatest negative value is excluded so the
/// result fits.
pub fn fx_abs(a: i64) -> (r: i64)
    requires
        a != i64::MIN,
    ensures
        r == abs_spec(a as int),
{
    if a >= 0 {
        a
    } else {
        -a
    }
}

pub fn fx_clamp(x: i64, lo: i64, hi: i64) -> (r: i64)
    requires
        lo <= hi,
    ensures
        r == clamp_spec(x as int, lo as int, hi as int),
{
    if x < lo {
        lo
    } else if x > hi {
        hi
    } else {
        x
    }
}

pub fn fx_max(a: i64, b: i64) -> (r: i64)
    ensures
        r == max_spec(a as int, b as int),
{
    if a >= b {
        a
    } else {
        b
    }
}

pub fn fx_min(a: i64, b: i64) -> (r: i64)
    ensures
        r == min_spec(a as int, b as int),
{
    if a <= b {
        a
    } else {
        b
    }
}

/// Fixed-point product `a * b`, exact up to the stated truncation.
pub fn fx_mul(a: i64, b: i64) -> (r: i64)
    requires
        -(i64::MAX as int) <= fx_mul_spec(a as int, b as int) <= i64::MAX as int,
    ensures
        r as int == fx_mul_spec(a as int, b as int),
{
    let ua: u128 = fx_abs_u(a) as u128;
    let ub: u128 = fx_abs_u(b) as u128;
    proof {
        assert((ua as int) * (ub as int) <= u128::MAX) by (nonlinear_arith)
            requires
                ua <= u64::MAX,
                ub <= u64::MAX,
        ;
    }
    let q: u128 = (ua * ub) / (FX_SCALE as u128);
    proof {
        assert(ua * ub == abs_spec(a as int) * abs_spec(b as int)) by (nonlinear_arith)
            requires
                ua == abs_spec(a as int),
                ub == abs_spec(b as int),
        ;
        assert(abs_spec(a as int) * abs_spec(b as int) == abs_spec((a as int) * (b as int)))
            by (nonlinear_arith);
    }
    if (a < 0) != (b < 0) {
        proof {
            if (a as int) * (b as int) >= 0 {
                assert((a as int) * (b as int) == 0) by (nonlinear_arith)
                    requires
                        ((a < 0) != (b < 0)),
                        (a as int) * (b as int) >= 0,
                ;
            }
            assert(q <= i64::MAX as int);
        }
        let qi: i128 = q as i128;
        (-qi) as i64
    } else {
        proof {
            assert((a as int) * (b as int) >= 0) by (nonlinear_arith)
                requires
                    !((a < 0) != (b < 0)),
            ;
        }
        q as i64
    }
}

/// Fixed-point quotient `a / b` for a positive divisor.
pub fn fx_div(a: i64, b: i64) -> (r: i64)
    requires
        b > 0,
        -(i64::MAX as int) <= fx_div_spec(a as int, b as int) <= i64::MAX as int,
    ensures
        r as int == fx_div_spec(a as int, b as int),
{
    let ua: u128 = fx_abs_u(a) as u128;
    let q: u128 = (ua * (FX_SCALE as u128)) / (b as u128);
    proof {
        assert(ua * (FX_SCALE as u128) == abs_spec(a as int) * FX_SCALE) by (nonlinear_arith)
            requires
                ua == abs_spec(a as int),
        ;
        assert(abs_spec(a as int) * FX_SCALE == abs_spec((a as int) * FX_SCALE)) by (nonlinear_arith);
    }
    if a < 0 {
        let qi: i128 = q as i128;
        (-qi) as i64
    } else {
        q as i64
    }
}

/// The magnitude of a fixed-point product is the scaled magnitude of the
/// exact product.
pub proof fn lemma_fx_mul_abs(a: int, b: int)
    ensures
        abs_spec(fx_mul_spec(a, b)) == abs_spec(a * b) / (FX_SCALE as int),
{
    if a * b >= 0 {
        vstd::arithmetic::div_mod::lemma_div_pos_is_pos(a * b, FX_SCALE as int);
    } else {
        vstd::arithmetic::div_mod::lemma_div_pos_is_pos(-(a * b), FX_SCALE as int);
    }
}

/// Bounds on the operands carry to the fixed-point product.
pub proof fn lemma_fx_mul_bound(a: int, b: int, ab: int, bb: int)
    requires
        abs_spec(a) <= ab,
        abs_spec(b) <= bb,
    ensures
        abs_spec(fx_mul_spec(a, b)) <= (ab * bb) / (FX_SCALE as int),
{
    lemma_fx_mul_abs(a, b);
    assert(abs_spec(a * b) <= ab * bb) by (nonlinear_arith)
        requires
            abs_spec(a) <= ab,
            abs_spec(b) <= bb,
    ;
    vstd::arithmetic::div_mod::lemma_div_is_ordered(abs_spec(a * b), ab * bb, FX_SCALE as int);
}

/// A fixed-point product of values up to three million units fits in the
/// representation.
pub proof fn lemma_fx_mul_fits(a: int, b: int)
    requires
        abs_spec(a) <= 3_000_000_000_000,
        abs_spec(b) <= 3_000_000_000_000,
    ensures
        -(i64::MAX as int) <= fx_mul_spec(a, b) <= i64::MAX as int,
        abs_spec(fx_mul_spec(a, b)) <= 9_000_000_000_000_000_000,
{
    lemma_fx_mul_bound(a, b, 3_000_000_000_000, 3_000_000_000_000);
}

/// A product of values that are both nonnegative is nonnegative; one of
/// mixed signs is nonpositive.
pub proof fn lemma_fx_mul_sign(a: int, b: int)
    ensures
        a >= 0 && b >= 0 ==> fx_mul_spec(a, b) >= 0,
        a <= 0 && b <= 0 ==> fx_mul_spec(a, b) >= 0,
        a >= 0 && b <= 0 ==> fx_mul_spec(a, b) <= 0,
        a <= 0 && b >= 0 ==> fx_mul_spec(a, b) <= 0,
{
    assert(a >= 0 && b >= 0 ==> a * b >= 0) by (nonlinear_arith);
    assert(a <= 0 && b <= 0 ==> a * b >= 0) by (nonlinear_arith);
    assert(a >= 0 && b <= 0 ==> a * b <= 0) by (nonlinear_arith);
    assert(a <= 0 && b >= 0 ==> a * b <= 0) by (nonlinear_arith);
    if a * b >= 0 {
        vstd::arithmetic::div_mod::lemma_div_pos_is_pos(a * b, FX_SCALE as int);
    } else {
        vstd::arithmetic::div_mod::lemma_div_pos_is_pos(-(a * b), FX_SCALE as int);
    }
}

/// Multiplying by one is the identity; multiplying by zero gives zero.
pub proof fn lemma_fx_mul_units(a: int)
    ensures
        fx_mul_spec(a, FX_ONE as int) == a,
        fx_mul_spec(FX_ONE as int, a) == a,
        fx_mul_spec(a, 0) == 0,
        fx_mul_spec(0, a) == 0,
{
    if a >= 0 {
        vstd::arithmetic::div_mod::lemma_div_multiples_vanish(a, FX_SCALE as int);
        assert(a * (FX_ONE as int) == (FX_SCALE as int) * a) by (nonlinear_arith);
        assert((FX_ONE as int) * a == (FX_SCALE as int) * a) by (nonlinear_arith);
    } else {
        vstd::arithmetic::div_mod::lemma_div_multiples_vanish(-a, FX_SCALE as int);
        assert(-(a * (FX_ONE as int)) == (FX_SCALE as int) * (-a)) by (nonlinear_arith);
        assert(-((FX_ONE as int) * a) == (FX_SCALE as int) * (-a)) by (nonlinear_arith);
    }
}

/// Multiplying by minus one negates.
pub proof fn lemma_fx_mul_neg_one(a: int)
    ensures
        fx_mul_spec(a, -(FX_ONE as int)) == -a,
        fx_mul_spec(-(FX_ONE as int), a) == -a,
{
    if a >= 0 {
        vstd::arithmetic::div_mod::lemma_div_multiples_vanish(a, FX_SCALE as int);
        assert(-(a * (-(FX_ONE as int))) == (FX_SCALE as int) * a) by (nonlinear_arith);
        assert(-((-(FX_ONE as int)) * a) == (FX_SCALE as int) * a) by (nonlinear_arith);
        assert(a * (-(FX_ONE as int)) <= 0 && (-(FX_ONE as int)) * a <= 0) by (nonlinear_arith)
            requires
                a >= 0,
        ;
        if a == 0 {
            assert(fx_mul_spec(0, -(FX_ONE as int)) == 0);
        }
    } else {
        vstd::arithmetic::div_mod::lemma_div_multiples_vanish(-a, FX_SCALE as int);
        assert(a * (-(FX_ONE as int)) == (FX_SCALE as int) * (-a)) by (nonlinear_arith);
        assert((-(FX_ONE as int)) * a == (FX_SCALE as int) * (-a)) by (nonlinear_arith);
        assert(a * (-(FX_ONE as int)) >= 0 && (-(FX_ONE as int)) * a >= 0) by (nonlinear_arith)
            requires
                a < 0,
        ;
    }
}

/// Dividing a value by itself (or its negation) gives one unit exactly;
/// dividing zero gives zero.
pub proof fn lemma_fx_div_self(r: int)
    requires
        r >= 1,
    ensures
        fx_div_spec(r, r) == FX_ONE,
        fx_div_spec(-r, r) == -(FX_ONE as int),
        fx_div_spec(0, r) == 0,
{
    vstd::arithmetic::div_mod::lemma_div_multiples_vanish(FX_SCALE as int, r);
    assert(r * FX_SCALE == r * (FX_SCALE as int)) by (nonlinear_arith);
    assert(-(-r) * FX_SCALE == r * (FX_SCALE as int)) by (nonlinear_arith);
    vstd::arithmetic::div_mod::lemma_div_of0(r);
}

/// The integer square root of a perfect square.
pub proof fn lemma_sqrt_square(r: int)
    requires
        r >= 0,
    ensures
        sqrt_int(r * r) == r,
{
    assert(r * r >= 0) by (nonlinear_arith);
    lemma_sqrt_int(r * r);
    assert(is_isqrt(r * r, r)) by (nonlinear_arith)
        requires
            r >= 0,
    ;
    lemma_isqrt_unique(r * r, sqrt_int(r * r), r);
}

/// Bounds on the dividend and divisor carry to the fixed-point quotient.
pub proof fn lemma_fx_div_bound(a: int, b: int, ab: int, bmin: int)
    requires
        abs_spec(a) <= ab,
        1 <= bmin <= b,
    ensures
        abs_spec(fx_div_spec(a, b)) <= (ab * FX_SCALE) / bmin,
{
    if a >= 0 {
        vstd::arithmetic::div_mod::lemma_div_pos_is_pos(a * FX_SCALE, b);
        assert(a * FX_SCALE <= ab * FX_SCALE) by (nonlinear_arith)
            requires
                0 <= a <= ab,
        ;
        vstd::arithmetic::div_mod::lemma_div_is_ordered(a * FX_SCALE, ab * FX_SCALE, b);
        vstd::arithmetic::div_mod::lemma_div_is_ordered_by_denominator(ab * FX_SCALE, bmin, b);
        assert(ab * FX_SCALE >= 0) by (nonlinear_arith)
            requires
                ab >= 0,
        ;
    } else {
        vstd::arithmetic::div_mod::lemma_div_pos_is_pos(-a * FX_SCALE, b);
        assert(-a * FX_SCALE <= ab * FX_SCALE) by (nonlinear_arith)
            requires
                0 <= -a <= ab,
        ;
        vstd::arithmetic::div_mod::lemma_div_is_ordered(-a * FX_SCALE, ab * FX_SCALE, b);
        vstd::arithmetic::div_mod::lemma_div_is_ordered_by_denominator(ab * FX_SCALE, bmin, b);
        assert(ab * FX_SCALE >= 0) by (nonlinear_arith)
            requires
                ab >= 0,
        ;
    }
}

/// A fixed-point ratio of a value by a larger positive value stays within
/// one unit.
pub proof fn lemma_fx_div_ratio(a: int, b: int)
    requires
        b >= 1,
        abs_spec(a) <= b,
    ensures
        abs_spec(fx_div_spec(a, b)) <= FX_ONE,
        -FX_ONE <= fx_div_spec(a, b) <= FX_ONE,
{
    lemma_fx_div_bound(a, b, b, b);
    assert((b * FX_SCALE) / b == FX_SCALE) by {
        vstd::arithmetic::div_mod::lemma_div_multiples_vanish(FX_SCALE as int, b);
        assert(b * (FX_SCALE as int) == b * (FX_SCALE as int));
    }
}

/// Fixed-point product kept within the library's coordinate range. The
/// controllers use this for every intermediate value, so their
/// arithmetic is total: inputs past the representable range saturate
/// instead of overflowing.
pub open spec fn fx_mul_clamped_spec(a: int, b: int) -> int {
    clamp_spec(fx_mul_spec(a, b), -(FX_MAX as int), FX_MAX as int)
}

/// Fixed-point quotient (positive divisor) kept within the library's
/// coordinate range.
pub open spec fn fx_div_clamped_spec(a: int, b: int) -> int {
    clamp_spec(fx_div_spec(a, b), -(FX_MAX as int), FX_MAX as int)
}

/// Saturating fixed-point product: total on all inputs.
pub fn fx_mul_clamped(a: i64, b: i64) -> (r: i64)
    ensures
        r as int == fx_mul_clamped_spec(a as int, b as int),
        abs_spec(r as int) <= FX_MAX,
{
    let ua: u128 = fx_abs_u(a) as u128;
    let ub: u128 = fx_abs_u(b) as u128;
    proof {
        assert((ua as int) * (ub as int) <= u128::MAX) by (nonlinear_arith)
            requires
                ua <= u64::MAX,
                ub <= u64::MAX,
        ;
        assert(ua * ub == abs_spec(a as int) * abs_spec(b as int)) by (nonlinear_arith)
            requires
                ua == abs_spec(a as int),
                ub == abs_spec(b as int),
        ;
        assert(abs_spec(a as int) * abs_spec(b as int) == abs_spec((a as int) * (b as int)))
            by (nonlinear_arith);
    }
    let q: u128 = (ua * ub) / (FX_SCALE as u128);
    let qc: i64 = if q > (FX_MAX as u128) {
        FX_MAX
    } else {
        q as i64
    };
    if (a < 0) != (b < 0) {
        proof {
            if (a as int) * (b as int) >= 0 {
                assert((a as int) * (b as int) == 0) by (nonlinear_arith)
                    requires
                        ((a < 0) != (b < 0)),
                        (a as int) * (b as int) >= 0,
                ;
            }
        }
        -qc
    } else {
        proof {
            assert((a as int) * (b as int) >= 0) by (nonlinear_arith)
                requires
                    !((a < 0) != (b < 0)),
            ;
        }
        qc
    }
}

/// Saturating fixed-point quotient for a positive divisor.
pub fn fx_div_clamped(a: i64, b: i64) -> (r: i64)
    requires
        b > 0,
    ensures
        r as int == fx_div_clamped_spec(a as int, b as int),
        abs_spec(r as int) <= FX_MAX,
{
    let ua: u128 = fx_abs_u(a) as u128;
    let q: u128 = (ua * (FX_SCALE as u128)) / (b as u128);
    proof {
        assert(ua * (FX_SCALE as u128) == abs_spec(a as int) * FX_SCALE) by (nonlinear_arith)
            requires
                ua == abs_spec(a as int),
        ;
        assert(abs_spec(a as int) * FX_SCALE == abs_spec((a as int) * FX_SCALE)) by (nonlinear_arith);
    }
    let qc: i64 = if q > (FX_MAX as u128) {
        FX_MAX
    } else {
        q as i64
    };
    if a < 0 {
        -qc
    } else {
        qc
    }
}

/// `r` is the integer square root of `n`.
pub open spec fn is_isqrt(n: int, r: int) -> bool {
    0 <= r && r * r <= n && (r + 1) * (r + 1) > n
}

/// The integer square root, as a mathematical function.
pub open spec fn sqrt_int(n: int) -> int {
    choose|r: int| #[trigger] is_isqrt(n, r)
}

pub proof fn lemma_isqrt_exists(n: nat)
    ensures
        exists|r: int| #[trigger] is_isqrt(n as int, r),
    decreases n,
{
    if n == 0 {
        assert(is_isqrt(0, 0));
    } else {
        lemma_isqrt_exists((n - 1) as nat);
        let r = choose|r: int| #[trigger] is_isqrt(n - 1, r);
        if (r + 1) * (r + 1) <= n {
            assert(is_isqrt(n as int, r + 1)) by (nonlinear_arith)
                requires
                    is_isqrt(n - 1, r),
                    (r + 1) * (r + 1) <= n,
            ;
        } else {
            assert(is_isqrt(n as int, r));
        }
    }
}

pub proof fn lemma_isqrt_unique(n: int, r1: int, r2: int)
    requires
        is_isqrt(n, r1),
        is_isqrt(n, r2),
    ensures
        r1 == r2,
{
    assert(r1 == r2) by (nonlinear_arith)
        requires
            is_isqrt(n, r1),
            is_isqrt(n, r2),
    ;
}

/// The integer square root of `n` satisfies its characterization.
pub proof fn lemma_sqrt_int(n: int)
    requires
        n >= 0,
    ensures
        is_isqrt(n, sqrt_int(n)),
{
    lemma_isqrt_exists(n as nat);
}

/// Integer square root by bisection.
pub fn isqrt_u128(n: u128) -> (r: u64)
    ensures
        is_isqrt(n as int, r as int),
        r as int == sqrt_int(n as int),
{
    let mut lo: u128 = 0;
    let mut hi: u128 = 0x1_0000_0000_0000_0000u128;
    proof {
        assert((hi as int) * (hi as int) > n as int) by (nonlinear_arith)
            requires
                hi == 0x1_0000_0000_0000_0000u128,
                n <= u128::MAX,
        ;
    }
    while lo + 1 < hi
        invariant
            0 <= lo < hi <= 0x1_0000_0000_0000_0000u128,
            (lo as int) * (lo as int) <= n as int,
            (hi as int) * (hi as int) > n as int,
        decreases hi - lo,
    {
        let mid: u128 = lo + (hi - lo) / 2;
        proof {
            assert(lo < mid < hi);
            assert((mid as int) * (mid as int) < 0x1_0000_0000_0000_0000_0000_0000_0000_0000)
                by (nonlinear_arith)
                requires
                    mid < 0x1_0000_0000_0000_0000u128,
            ;
        }
        if mid * mid <= n {
            lo = mid;
        } else {
            hi = mid;
        }
    }
    proof {
        assert(is_isqrt(n as int, lo as int));
        lemma_sqrt_int(n as int);
        lemma_isqrt_unique(n as int, lo as int, sqrt_int(n as int));
    }
    lo as u64
}

/// Square root of a nonnegative fixed-point value, as a fixed-point value.
pub open spec fn fx_sqrt_spec(a: int) -> int {
    sqrt_int(a * FX_SCALE)
}

pub fn fx_sqrt(a: i64) -> (r: i64)
    requires
        0 <= a,
    ensures
        r as int == fx_sqrt_spec(a as int),
        is_isqrt(a * FX_SCALE, r as int),
        0 <= r <= 3_100_000_000_000i64,
{
    proof {
        assert((a as int) * 1_000_000 <= u128::MAX) by (nonlinear_arith)
            requires
                0 <= a <= 9223372036854775807,
        ;
    }
    let n: u128 = (a as u128) * (FX_SCALE as u128);
    let r = isqrt_u128(n);
    proof {
        assert((r as int) * (r as int) <= n as int);
        assert(n as int <= 9223372036854775807 * 1_000_000) by (nonlinear_arith)
            requires
                n as int == (a as int) * 1_000_000,
                0 <= a <= 9223372036854775807,
        ;
        assert(r as int <= 3_100_000_000_000) by (nonlinear_arith)
            requires
                (r as int) * (r as int) <= 9223372036854775807 * 1_000_000,
                r >= 0,
        ;
    }
    r as i64
}

} // verus!
