//! Fixed-point scalar arithmetic and trigonometry against reference
//! values computed in floating point.

use blendy_cameras::fx::{
    fx_abs, fx_clamp, fx_div, fx_div_clamped, fx_half, fx_max, fx_min, fx_mul, fx_mul_clamped,
    fx_sqrt, isqrt_u128, FX_HALF_PI, FX_MAX, FX_ONE, FX_PI, FX_TWO_PI,
};
use blendy_cameras::trig::{acos_fx, asin_fx, cos_fx, sin_fx};

fn to_f64(v: i64) -> f64 {
    v as f64 / 1_000_000.0
}

#[test]
fn mul_and_div_are_exact() {
    assert_eq!(fx_mul(2_000_000, 3_000_000), 6_000_000);
    assert_eq!(fx_mul(-2_000_000, 3_000_000), -6_000_000);
    assert_eq!(fx_mul(1_500_000, 1_500_000), 2_250_000);
    assert_eq!(fx_mul(1, 1), 0);
    assert_eq!(fx_mul(999_999, -1), 0);
    assert_eq!(fx_div(1_000_000, 3_000_000), 333_333);
    assert_eq!(fx_div(-1_000_000, 3_000_000), -333_333);
    assert_eq!(fx_div(7_000_000, 2_000_000), 3_500_000);
}

#[test]
fn clamped_ops_saturate() {
    assert_eq!(fx_mul_clamped(FX_MAX, 2_000_000), FX_MAX);
    assert_eq!(fx_mul_clamped(-FX_MAX, 2_000_000), -FX_MAX);
    assert_eq!(fx_mul_clamped(2_000_000, 3_000_000), 6_000_000);
    assert_eq!(fx_div_clamped(FX_MAX, 1), FX_MAX);
    assert_eq!(fx_div_clamped(-3_000_000, 2_000_000), -1_500_000);
}

#[test]
fn helpers_match_their_meaning() {
    assert_eq!(fx_abs(-5), 5);
    assert_eq!(fx_clamp(7, 0, 5), 5);
    assert_eq!(fx_clamp(-7, -5, 5), -5);
    assert_eq!(fx_max(3, 4), 4);
    assert_eq!(fx_min(3, 4), 3);
    assert_eq!(fx_half(7), 3);
    assert_eq!(fx_half(-7), -3);
}

#[test]
fn integer_square_roots_are_exact() {
    assert_eq!(isqrt_u128(0), 0);
    assert_eq!(isqrt_u128(1), 1);
    assert_eq!(isqrt_u128(3), 1);
    assert_eq!(isqrt_u128(4), 2);
    assert_eq!(isqrt_u128(1_000_000_000_000), 1_000_000);
    assert_eq!(isqrt_u128(27_250_000_000_000), 5_220_153);
    assert_eq!(fx_sqrt(FX_ONE), FX_ONE);
    assert_eq!(fx_sqrt(4_000_000), 2_000_000);
    assert_eq!(fx_sqrt(2_000_000), 1_414_213);
}

#[test]
fn sine_and_cosine_track_the_real_functions() {
    let samples: [i64; 12] = [
        0,
        250_000,
        -250_000,
        1_000_000,
        FX_HALF_PI,
        -FX_HALF_PI,
        FX_PI,
        -FX_PI,
        FX_TWO_PI,
        5_000_000,
        -4_000_000,
        12_345_678,
    ];
    for &a in samples.iter() {
        let s = to_f64(sin_fx(a));
        let c = to_f64(cos_fx(a));
        let rs = to_f64(a).sin();
        let rc = to_f64(a).cos();
        assert!((s - rs).abs() < 1e-3, "sin({a}) = {s}, want {rs}");
        assert!((c - rc).abs() < 1e-3, "cos({a}) = {c}, want {rc}");
    }
}

#[test]
fn sine_is_exact_on_the_axes() {
    assert_eq!(sin_fx(0), 0);
    assert_eq!(sin_fx(FX_HALF_PI), FX_ONE);
    assert_eq!(sin_fx(-FX_HALF_PI), -FX_ONE);
    assert_eq!(sin_fx(FX_PI), 0);
    assert_eq!(cos_fx(0), FX_ONE);
    assert_eq!(cos_fx(FX_HALF_PI), 0);
    assert_eq!(cos_fx(FX_PI), -FX_ONE);
}

#[test]
fn arcs_track_the_real_functions() {
    let samples: [i64; 9] = [
        -1_000_000,
        -750_000,
        -500_000,
        -100_000,
        0,
        100_000,
        500_000,
        750_000,
        1_000_000,
    ];
    for &v in samples.iter() {
        let a = to_f64(asin_fx(v));
        let c = to_f64(acos_fx(v));
        let ra = to_f64(v).asin();
        let rc = to_f64(v).acos();
        assert!((a - ra).abs() < 1e-3, "asin({v}) = {a}, want {ra}");
        assert!((c - rc).abs() < 1e-3, "acos({v}) = {c}, want {rc}");
    }
    assert_eq!(asin_fx(0), 0);
    assert_eq!(asin_fx(FX_ONE), FX_HALF_PI);
    assert_eq!(asin_fx(-FX_ONE), -FX_HALF_PI);
    assert_eq!(acos_fx(FX_ONE), 0);
    assert_eq!(acos_fx(-FX_ONE), FX_PI);
}
