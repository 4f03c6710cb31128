//! Fixed-point trigonometry.
//!
//! Angles are fixed-point radians (see [`crate::fx`]). The sine is a
//! seventh-order polynomial on the first quarter revolution, extended by
//! symmetry; the arc cosine is a cubic polynomial scaled by a square
//! root. Both are exact at the axis-aligned angles (multiples of a
//! quarter revolution for the sine and cosine, the values -1, 0 and 1
//! for the inverses) and stay within about a tenth of the library's
//! comparison tolerance elsewhere. Every function is specified exactly
//! as a mathematical function of its argument.

use vstd::prelude::*;

use crate::fx::FX_HALF_PI;
use crate::fx::FX_ONE;
use crate::fx::FX_PI;
use crate::fx::FX_SCALE;
use crate::fx::FX_TWO_PI;
use crate::fx::abs_spec;
use crate::fx::clamp_spec;
use crate::fx::fx_abs_u;
use crate::fx::fx_mul;
use crate::fx::fx_mul_spec;
use crate::fx::fx_sqrt;
use crate::fx::fx_sqrt_spec;
use crate::fx::is_isqrt;
use crate::fx::lemma_isqrt_unique;
use crate::fx::lemma_sqrt_int;

verus! {

/// The argument reduced to one revolution, in `[0, FX_TWO_PI)`.
pub open spec fn angle_norm_spec(a: int) -> int {
    a % (FX_TWO_PI as int)
}

/// Sine on the first quarter revolution.
#[verifier::opaque]
pub open spec fn sin_quarter_spec(x: int) -> int {
    if x == FX_HALF_PI {
        FX_ONE as int
    } else {
        let x2 = (x * x) / (FX_SCALE as int);
        let x3 = (x2 * x) / (FX_SCALE as int);
        let x5 = (x3 * x2) / (FX_SCALE as int);
        let x7 = (x5 * x2) / (FX_SCALE as int);
        clamp_spec(x - x3 / 6 + x5 / 120 - x7 / 5040, 0, FX_ONE as int)
    }
}

/// Sine of a fixed-point angle, by quadrant symmetry.
#[verifier::opaque]
pub open spec fn sin_fx_spec(a: int) -> int {
    let m = angle_norm_spec(a);
    if m <= FX_HALF_PI {
        sin_quarter_spec(m)
    } else if m <= FX_PI {
        sin_quarter_spec(FX_PI - m)
    } else if m <= FX_PI + FX_HALF_PI {
        -sin_quarter_spec(m - FX_PI)
    } else {
        -sin_quarter_spec(FX_TWO_PI - m)
    }
}

/// Cosine as the sine a quarter revolution ahead.
pub open spec fn cos_fx_spec(a: int) -> int {
    sin_fx_spec(a + FX_HALF_PI)
}

proof fn lemma_sin_quarter_range(x: int)
    ensures
        0 <= sin_quarter_spec(x) <= FX_ONE,
{
    reveal(sin_quarter_spec);
}

pub proof fn lemma_sin_range(a: int)
    ensures
        -FX_ONE <= sin_fx_spec(a) <= FX_ONE,
{
    reveal(sin_fx_spec);
    let m = angle_norm_spec(a);
    if m <= FX_HALF_PI {
        lemma_sin_quarter_range(m);
    } else if m <= FX_PI {
        lemma_sin_quarter_range(FX_PI - m);
    } else if m <= FX_PI + FX_HALF_PI {
        lemma_sin_quarter_range(m - FX_PI);
    } else {
        lemma_sin_quarter_range(FX_TWO_PI - m);
    }
}

pub proof fn lemma_cos_range(a: int)
    ensures
        -FX_ONE <= cos_fx_spec(a) <= FX_ONE,
{
    lemma_sin_range(a + FX_HALF_PI);
}

/// The argument reduced to one revolution.
fn angle_norm(a: i64) -> (m: i64)
    ensures
        m as int == angle_norm_spec(a as int),
        0 <= m < FX_TWO_PI,
{
    let ua: u64 = fx_abs_u(a);
    let r: u64 = ua % (FX_TWO_PI as u64);
    if a >= 0 {
        r as i64
    } else if r == 0 {
        proof {
            let q = (ua as int) / (FX_TWO_PI as int);
            assert(ua as int == q * (FX_TWO_PI as int) + (ua as int) % (FX_TWO_PI as int));
            assert(a as int == (-q) * (FX_TWO_PI as int) + 0) by (nonlinear_arith)
                requires
                    a as int == -(ua as int),
                    ua as int == q * (FX_TWO_PI as int),
            ;
            vstd::arithmetic::div_mod::lemma_fundamental_div_mod_converse(
                a as int,
                FX_TWO_PI as int,
                -q,
                0,
            );
        }
        0
    } else {
        proof {
            let q = (ua as int) / (FX_TWO_PI as int);
            assert(ua as int == q * (FX_TWO_PI as int) + r);
            assert(a as int == (-q - 1) * (FX_TWO_PI as int) + (FX_TWO_PI - r)) by (nonlinear_arith)
                requires
                    a as int == -(ua as int),
                    ua as int == q * (FX_TWO_PI as int) + r,
            ;
            vstd::arithmetic::div_mod::lemma_fundamental_div_mod_converse(
                a as int,
                FX_TWO_PI as int,
                -q - 1,
                FX_TWO_PI - r,
            );
        }
        FX_TWO_PI - (r as i64)
    }
}

/// Sine on the first quarter revolution.
fn sin_quarter(x: i64) -> (r: i64)
    requires
        0 <= x <= FX_HALF_PI,
    ensures
        r as int == sin_quarter_spec(x as int),
        0 <= r <= FX_ONE,
{
    proof {
        reveal(sin_quarter_spec);
        lemma_sin_quarter_range(x as int);
    }
    if x == FX_HALF_PI {
        FX_ONE
    } else {
        let xu: u128 = x as u128;
        proof {
            assert(xu * xu <= 1_570_796 * 1_570_796) by (nonlinear_arith)
                requires
                    xu <= 1_570_796,
            ;
        }
        let x2: u128 = (xu * xu) / (FX_SCALE as u128);
        proof {
            vstd::arithmetic::div_mod::lemma_div_is_ordered(
                (xu * xu) as int,
                1_570_796int * 1_570_796,
                1_000_000,
            );
            assert(x2 * xu <= 2_467_401 * 1_570_796) by (nonlinear_arith)
                requires
                    x2 <= 2_467_401,
                    xu <= 1_570_796,
            ;
        }
        let x3: u128 = (x2 * xu) / (FX_SCALE as u128);
        proof {
            vstd::arithmetic::div_mod::lemma_div_is_ordered(
                (x2 * xu) as int,
                2_467_401int * 1_570_796,
                1_000_000,
            );
            assert(x3 * x2 <= 3_875_783 * 2_467_401) by (nonlinear_arith)
                requires
                    x3 <= 3_875_783,
                    x2 <= 2_467_401,
            ;
        }
        let x5: u128 = (x3 * x2) / (FX_SCALE as u128);
        proof {
            vstd::arithmetic::div_mod::lemma_div_is_ordered(
                (x3 * x2) as int,
                3_875_783int * 2_467_401,
                1_000_000,
            );
            assert(x5 * x2 <= 9_563_111 * 2_467_401) by (nonlinear_arith)
                requires
                    x5 <= 9_563_111,
                    x2 <= 2_467_401,
            ;
        }
        let x7: u128 = (x5 * x2) / (FX_SCALE as u128);
        let pos: u128 = xu + x5 / 120;
        let neg: u128 = x3 / 6 + x7 / 5040;
        let raw: i64 = if pos > neg {
            let d: u128 = pos - neg;
            d as i64
        } else {
            0
        };
        let clamped: i64 = if raw > FX_ONE {
            FX_ONE
        } else {
            raw
        };
        clamped
    }
}

/// Sine of a fixed-point angle.
pub fn sin_fx(a: i64) -> (r: i64)
    ensures
        r as int == sin_fx_spec(a as int),
        -FX_ONE <= r <= FX_ONE,
{
    proof {
        reveal(sin_fx_spec);
        lemma_sin_range(a as int);
    }
    let m = angle_norm(a);
    if m <= FX_HALF_PI {
        sin_quarter(m)
    } else if m <= FX_PI {
        sin_quarter(FX_PI - m)
    } else if m <= FX_PI + FX_HALF_PI {
        -sin_quarter(m - FX_PI)
    } else {
        -sin_quarter(FX_TWO_PI - m)
    }
}

/// Cosine of a fixed-point angle.
pub fn cos_fx(a: i64) -> (r: i64)
    requires
        a + FX_HALF_PI <= i64::MAX,
    ensures
        r as int == cos_fx_spec(a as int),
        -FX_ONE <= r <= FX_ONE,
{
    sin_fx(a + FX_HALF_PI)
}

/// Arc cosine core on `[0, FX_ONE]`: a cubic polynomial scaled by
/// `sqrt(1 - u)`, clamped into the first quarter revolution.
#[verifier::opaque]
pub open spec fn acos_core_spec(u: int) -> int {
    let s = fx_sqrt_spec(FX_ONE - u);
    let u2 = fx_mul_spec(u, u);
    let u3 = fx_mul_spec(u2, u);
    let p = 1_570_729 - fx_mul_spec(212_114, u) + fx_mul_spec(74_261, u2) - fx_mul_spec(
        18_729,
        u3,
    );
    clamp_spec(fx_mul_spec(s, p), 0, FX_HALF_PI as int)
}

/// Arc cosine of a fixed-point value in `[-FX_ONE, FX_ONE]`, in
/// `[0, FX_PI]`.
pub open spec fn acos_fx_spec(v: int) -> int {
    if v >= 0 {
        acos_core_spec(v)
    } else {
        FX_PI - acos_core_spec(-v)
    }
}

/// Arc sine of a fixed-point value in `[-FX_ONE, FX_ONE]`, in
/// `[-FX_HALF_PI, FX_HALF_PI]`.
pub open spec fn asin_fx_spec(v: int) -> int {
    if v == 0 {
        0
    } else {
        FX_HALF_PI - acos_fx_spec(v)
    }
}

fn acos_core(u: i64) -> (r: i64)
    requires
        0 <= u <= FX_ONE,
    ensures
        r as int == acos_core_spec(u as int),
        0 <= r <= FX_HALF_PI,
{
    proof {
        reveal(acos_core_spec);
    }
    let s = fx_sqrt(FX_ONE - u);
    proof {
        assert(s <= 1_000_000) by (nonlinear_arith)
            requires
                (s as int) * (s as int) <= (FX_ONE - u) * (FX_SCALE as int),
                0 <= u <= 1_000_000,
                s >= 0,
        ;
        crate::fx::lemma_fx_mul_fits(u as int, u as int);
        crate::fx::lemma_fx_mul_bound(u as int, u as int, 1_000_000, 1_000_000);
        crate::fx::lemma_fx_mul_sign(u as int, u as int);
    }
    let u2 = fx_mul(u, u);
    proof {
        crate::fx::lemma_fx_mul_fits(u2 as int, u as int);
        crate::fx::lemma_fx_mul_bound(u2 as int, u as int, 1_000_000, 1_000_000);
        crate::fx::lemma_fx_mul_sign(u2 as int, u as int);
    }
    let u3 = fx_mul(u2, u);
    proof {
        crate::fx::lemma_fx_mul_fits(212_114, u as int);
        crate::fx::lemma_fx_mul_bound(212_114, u as int, 212_114, 1_000_000);
        crate::fx::lemma_fx_mul_sign(212_114, u as int);
        crate::fx::lemma_fx_mul_fits(74_261, u2 as int);
        crate::fx::lemma_fx_mul_bound(74_261, u2 as int, 74_261, 1_000_000);
        crate::fx::lemma_fx_mul_sign(74_261, u2 as int);
        crate::fx::lemma_fx_mul_fits(18_729, u3 as int);
        crate::fx::lemma_fx_mul_bound(18_729, u3 as int, 18_729, 1_000_000);
        crate::fx::lemma_fx_mul_sign(18_729, u3 as int);
    }
    let p = 1_570_729 - fx_mul(212_114, u) + fx_mul(74_261, u2) - fx_mul(18_729, u3);
    proof {
        crate::fx::lemma_fx_mul_fits(s as int, p as int);
    }
    let raw = fx_mul(s, p);
    if raw < 0 {
        0
    } else if raw > FX_HALF_PI {
        FX_HALF_PI
    } else {
        raw
    }
}

/// Arc cosine of a fixed-point value.
pub fn acos_fx(v: i64) -> (r: i64)
    requires
        -FX_ONE <= v <= FX_ONE,
    ensures
        r as int == acos_fx_spec(v as int),
        0 <= r <= FX_PI,
{
    if v >= 0 {
        acos_core(v)
    } else {
        FX_PI - acos_core(-v)
    }
}

/// Arc sine of a fixed-point value.
pub fn asin_fx(v: i64) -> (r: i64)
    requires
        -FX_ONE <= v <= FX_ONE,
    ensures
        r as int == asin_fx_spec(v as int),
        -FX_HALF_PI <= r <= FX_HALF_PI,
{
    if v == 0 {
        0
    } else {
        FX_HALF_PI - acos_fx(v)
    }
}

/// The sine and cosine are exact at the axis-aligned angles.
pub proof fn lemma_trig_axis_values()
    ensures
        sin_fx_spec(0) == 0,
        sin_fx_spec(FX_HALF_PI as int) == FX_ONE,
        sin_fx_spec(-(FX_HALF_PI as int)) == -FX_ONE,
        sin_fx_spec(FX_PI as int) == 0,
        sin_fx_spec(-(FX_PI as int)) == 0,
        cos_fx_spec(0) == FX_ONE,
        cos_fx_spec(FX_HALF_PI as int) == 0,
        cos_fx_spec(-(FX_HALF_PI as int)) == 0,
        cos_fx_spec(FX_PI as int) == -FX_ONE,
        cos_fx_spec(-(FX_PI as int)) == -FX_ONE,
{
    reveal(sin_fx_spec);
    reveal(sin_quarter_spec);
    assert(sin_fx_spec(0) == 0);
    assert(sin_fx_spec(1_570_796) == 1_000_000);
    assert(sin_fx_spec(-1_570_796) == -1_000_000);
    assert(sin_fx_spec(3_141_592) == 0);
    assert(sin_fx_spec(-3_141_592) == 0);
    assert(cos_fx_spec(0) == 1_000_000);
    assert(cos_fx_spec(1_570_796) == 0);
    assert(cos_fx_spec(-1_570_796) == 0);
    assert(cos_fx_spec(3_141_592) == -1_000_000);
    assert(cos_fx_spec(-3_141_592) == -1_000_000);
}

/// The arc sine and arc cosine are exact at -1, 0 and 1, up to the
/// rounding of the quarter revolution's last digit for `acos(0)`.
pub proof fn lemma_arc_axis_values()
    ensures
        acos_fx_spec(FX_ONE as int) == 0,
        acos_fx_spec(-(FX_ONE as int)) == FX_PI,
        asin_fx_spec(0) == 0,
        asin_fx_spec(FX_ONE as int) == FX_HALF_PI,
        asin_fx_spec(-(FX_ONE as int)) == -(FX_HALF_PI as int),
        abs_spec(acos_fx_spec(0) - FX_HALF_PI) <= 100,
{
    reveal(acos_core_spec);
    lemma_sqrt_int(0);
    let s0 = fx_sqrt_spec(0);
    assert(s0 * s0 <= 0 && s0 >= 0);
    assert(s0 == 0) by (nonlinear_arith)
        requires
            s0 * s0 <= 0,
            s0 >= 0,
    ;
    assert(acos_core_spec(FX_ONE as int) == 0);
    lemma_sqrt_int(1_000_000_000_000);
    let s1 = fx_sqrt_spec(FX_ONE as int);
    assert(is_isqrt(1_000_000_000_000, 1_000_000));
    lemma_isqrt_unique(1_000_000_000_000, s1, 1_000_000);
    assert(acos_core_spec(0) == 1_570_729);
}

} // verus!
