//! Fixed-point plane and space vectors, and the axis rotations the
//! controllers use.
//!
//! Executable values hold `i64` fixed-point coordinates (see
//! [`crate::fx`]); contracts speak of their views [`V2`] and [`V3`],
//! whose fields are unbounded integers.

use vstd::prelude::*;

use crate::fx::FX_ONE;
use crate::fx::FX_SCALE;
use crate::fx::abs_spec;
use crate::fx::fx_abs_u;
use crate::fx::fx_div;
use crate::fx::fx_div_spec;
use crate::fx::fx_mul;
use crate::fx::fx_mul_spec;
use crate::fx::is_isqrt;
use crate::fx::lemma_fx_div_ratio;
use crate::fx::lemma_fx_mul_bound;
use crate::fx::lemma_isqrt_unique;
use crate::fx::lemma_sqrt_int;
use crate::fx::sqrt_int;
use crate::trig::cos_fx;
use crate::trig::cos_fx_spec;
use crate::trig::sin_fx;
use crate::trig::sin_fx_spec;

verus! {

/// A plane vector (cursor positions, motion deltas, window sizes).
#[derive(Clone, Copy, Debug, Default, PartialEq, Eq, Structural)]
pub struct Vec2Fx {
    pub x: i64,
    pub y: i64,
}

/// A space vector (positions, focus points, axes).
#[derive(Clone, Copy, Debug, Default, PartialEq, Eq, Structural)]
pub struct Vec3Fx {
    pub x: i64,
    pub y: i64,
    pub z: i64,
}

/// An axis-aligned rectangle in window coordinates (a viewport).
#[derive(Clone, Copy, Debug, PartialEq, Eq, Structural)]
pub struct RectFx {
    pub min: Vec2Fx,
    pub max: Vec2Fx,
}

/// Mathematical view of a plane vector.
pub ghost struct V2 {
    pub x: int,
    pub y: int,
}

/// Mathematical view of a space vector.
pub ghost struct V3 {
    pub x: int,
    pub y: int,
    pub z: int,
}

impl View for Vec2Fx {
    type V = V2;

    open spec fn view(&self) -> V2 {
        V2 { x: self.x as int, y: self.y as int }
    }
}

impl View for Vec3Fx {
    type V = V3;

    open spec fn view(&self) -> V3 {
        V3 { x: self.x as int, y: self.y as int, z: self.z as int }
    }
}

impl Vec2Fx {
    pub open spec fn spec_zero() -> Vec2Fx {
        Vec2Fx { x: 0, y: 0 }
    }

    pub fn zero() -> (r: Vec2Fx)
        ensures
            r == Self::spec_zero(),
    {
        Vec2Fx { x: 0, y: 0 }
    }
}

impl Vec3Fx {
    pub open spec fn spec_zero() -> Vec3Fx {
        Vec3Fx { x: 0, y: 0, z: 0 }
    }

    pub fn zero() -> (r: Vec3Fx)
        ensures
            r == Self::spec_zero(),
    {
        Vec3Fx { x: 0, y: 0, z: 0 }
    }

    pub fn new(x: i64, y: i64, z: i64) -> (r: Vec3Fx)
        ensures
            r@ == (V3 { x: x as int, y: y as int, z: z as int }),
    {
        Vec3Fx { x, y, z }
    }
}

/// The executable vector holding a view whose coordinates fit.
pub open spec fn vec_of_v3(v: V3) -> Vec3Fx {
    Vec3Fx { x: v.x as i64, y: v.y as i64, z: v.z as i64 }
}

/// Both coordinates within `b` in magnitude.
pub open spec fn bounded2(v: V2, b: int) -> bool {
    abs_spec(v.x) <= b && abs_spec(v.y) <= b
}

/// All three coordinates within `b` in magnitude.
pub open spec fn bounded3(v: V3, b: int) -> bool {
    abs_spec(v.x) <= b && abs_spec(v.y) <= b && abs_spec(v.z) <= b
}

pub open spec fn v3_add_spec(a: V3, b: V3) -> V3 {
    V3 { x: a.x + b.x, y: a.y + b.y, z: a.z + b.z }
}

pub open spec fn v3_sub_spec(a: V3, b: V3) -> V3 {
    V3 { x: a.x - b.x, y: a.y - b.y, z: a.z - b.z }
}

pub open spec fn v3_scale_spec(v: V3, s: int) -> V3 {
    V3 { x: fx_mul_spec(v.x, s), y: fx_mul_spec(v.y, s), z: fx_mul_spec(v.z, s) }
}

pub open spec fn v3_dot_spec(a: V3, b: V3) -> int {
    fx_mul_spec(a.x, b.x) + fx_mul_spec(a.y, b.y) + fx_mul_spec(a.z, b.z)
}

/// Length of a space vector: the integer square root of the summed
/// squared coordinates (which is again a fixed-point value).
pub open spec fn v3_length_spec(v: V3) -> int {
    sqrt_int(v.x * v.x + v.y * v.y + v.z * v.z)
}

/// The unit vector along `v`, or zero when `v` is zero.
pub open spec fn v3_normalize_or_zero_spec(v: V3) -> V3 {
    let l = v3_length_spec(v);
    if l <= 0 {
        V3 { x: 0, y: 0, z: 0 }
    } else {
        V3 { x: fx_div_spec(v.x, l), y: fx_div_spec(v.y, l), z: fx_div_spec(v.z, l) }
    }
}

/// Rotation of `v` about the X axis by `a`.
pub open spec fn rot_x_spec(v: V3, a: int) -> V3 {
    let c = cos_fx_spec(a);
    let s = sin_fx_spec(a);
    V3 {
        x: v.x,
        y: fx_mul_spec(v.y, c) - fx_mul_spec(v.z, s),
        z: fx_mul_spec(v.y, s) + fx_mul_spec(v.z, c),
    }
}

/// Rotation of `v` about the Y axis by `a`.
pub open spec fn rot_y_spec(v: V3, a: int) -> V3 {
    let c = cos_fx_spec(a);
    let s = sin_fx_spec(a);
    V3 {
        x: fx_mul_spec(v.x, c) + fx_mul_spec(v.z, s),
        y: v.y,
        z: fx_mul_spec(v.z, c) - fx_mul_spec(v.x, s),
    }
}

/// Vector bound under which the arithmetic of the rotation helpers and
/// the pivot chains cannot overflow.
pub const V3_OP_LIMIT: i64 = 1_000_000_000_000_000;

/// A ray in world space: an origin and a direction.
#[derive(Clone, Copy, Debug, PartialEq, Eq, Structural)]
pub struct RayFx {
    pub origin: Vec3Fx,
    pub direction: Vec3Fx,
}

/// A ray the host may hand over: origin within the camera range,
/// direction unit-bounded.
pub open spec fn wf_ray(r: RayFx) -> bool {
    bounded3(r.origin@, 2 * crate::fx::FX_MAX) && bounded3(r.direction@, FX_ONE as int)
}

/// Componentwise clamp of a space vector into `[-lim, lim]`.
pub open spec fn clamp3_spec(v: V3, lim: int) -> V3 {
    V3 {
        x: crate::fx::clamp_spec(v.x, -lim, lim),
        y: crate::fx::clamp_spec(v.y, -lim, lim),
        z: crate::fx::clamp_spec(v.z, -lim, lim),
    }
}

pub fn clamp3(v: Vec3Fx, lim: i64) -> (r: Vec3Fx)
    requires
        0 <= lim,
    ensures
        r@ == clamp3_spec(v@, lim as int),
        bounded3(r@, lim as int),
{
    Vec3Fx {
        x: crate::fx::fx_clamp(v.x, -lim, lim),
        y: crate::fx::fx_clamp(v.y, -lim, lim),
        z: crate::fx::fx_clamp(v.z, -lim, lim),
    }
}

pub fn v3_add(a: Vec3Fx, b: Vec3Fx) -> (r: Vec3Fx)
    requires
        bounded3(a@, 4 * V3_OP_LIMIT),
        bounded3(b@, 4 * V3_OP_LIMIT),
    ensures
        r@ == v3_add_spec(a@, b@),
{
    Vec3Fx { x: a.x + b.x, y: a.y + b.y, z: a.z + b.z }
}

pub fn v3_sub(a: Vec3Fx, b: Vec3Fx) -> (r: Vec3Fx)
    requires
        bounded3(a@, 4 * V3_OP_LIMIT),
        bounded3(b@, 4 * V3_OP_LIMIT),
    ensures
        r@ == v3_sub_spec(a@, b@),
{
    Vec3Fx { x: a.x - b.x, y: a.y - b.y, z: a.z - b.z }
}

pub fn v3_scale(v: Vec3Fx, s: i64) -> (r: Vec3Fx)
    requires
        bounded3(v@, 3_000_000_000_000),
        abs_spec(s as int) <= 3_000_000_000_000,
    ensures
        r@ == v3_scale_spec(v@, s as int),
{
    proof {
        crate::fx::lemma_fx_mul_fits(v@.x, s as int);
        crate::fx::lemma_fx_mul_fits(v@.y, s as int);
        crate::fx::lemma_fx_mul_fits(v@.z, s as int);
    }
    Vec3Fx { x: fx_mul(v.x, s), y: fx_mul(v.y, s), z: fx_mul(v.z, s) }
}

/// Componentwise saturating scale: total on all inputs, each
/// coordinate kept within the library's coordinate range.
pub open spec fn v3_scale_clamped_spec(v: V3, s: int) -> V3 {
    V3 {
        x: crate::fx::fx_mul_clamped_spec(v.x, s),
        y: crate::fx::fx_mul_clamped_spec(v.y, s),
        z: crate::fx::fx_mul_clamped_spec(v.z, s),
    }
}

pub fn v3_scale_clamped(v: Vec3Fx, s: i64) -> (r: Vec3Fx)
    ensures
        r@ == v3_scale_clamped_spec(v@, s as int),
        bounded3(r@, crate::fx::FX_MAX as int),
{
    Vec3Fx {
        x: crate::fx::fx_mul_clamped(v.x, s),
        y: crate::fx::fx_mul_clamped(v.y, s),
        z: crate::fx::fx_mul_clamped(v.z, s),
    }
}

/// Inner product of two unit-bounded vectors (directions).
pub fn v3_dot(a: Vec3Fx, b: Vec3Fx) -> (r: i64)
    requires
        bounded3(a@, FX_ONE as int),
        bounded3(b@, FX_ONE as int),
    ensures
        r as int == v3_dot_spec(a@, b@),
        abs_spec(r as int) <= 3 * FX_ONE,
{
    proof {
        crate::fx::lemma_fx_mul_bound(a@.x, b@.x, FX_ONE as int, FX_ONE as int);
        crate::fx::lemma_fx_mul_bound(a@.y, b@.y, FX_ONE as int, FX_ONE as int);
        crate::fx::lemma_fx_mul_bound(a@.z, b@.z, FX_ONE as int, FX_ONE as int);
    }
    fx_mul(a.x, b.x) + fx_mul(a.y, b.y) + fx_mul(a.z, b.z)
}

/// The length bounds each coordinate and is bounded by their sum.
pub proof fn lemma_v3_length_bounds(v: V3)
    ensures
        v3_length_spec(v) >= abs_spec(v.x),
        v3_length_spec(v) >= abs_spec(v.y),
        v3_length_spec(v) >= abs_spec(v.z),
        v3_length_spec(v) <= abs_spec(v.x) + abs_spec(v.y) + abs_spec(v.z),
        v3_length_spec(v) >= 0,
{
    let n = v.x * v.x + v.y * v.y + v.z * v.z;
    assert(v.x * v.x >= 0 && v.y * v.y >= 0 && v.z * v.z >= 0) by (nonlinear_arith);
    lemma_sqrt_int(n);
    let l = sqrt_int(n);
    assert(l >= abs_spec(v.x) && l >= abs_spec(v.y) && l >= abs_spec(v.z)) by (nonlinear_arith)
        requires
            is_isqrt(n, l),
            n == v.x * v.x + v.y * v.y + v.z * v.z,
    ;
    assert(l <= abs_spec(v.x) + abs_spec(v.y) + abs_spec(v.z)) by (nonlinear_arith)
        requires
            is_isqrt(n, l),
            n == v.x * v.x + v.y * v.y + v.z * v.z,
    ;
}

pub fn v3_length(v: Vec3Fx) -> (r: i64)
    requires
        bounded3(v@, 3_000_000_000_000_000_000),
    ensures
        r as int == v3_length_spec(v@),
        r >= 0,
        r as int <= abs_spec(v@.x) + abs_spec(v@.y) + abs_spec(v@.z),
        r as int >= abs_spec(v@.x),
        r as int >= abs_spec(v@.y),
        r as int >= abs_spec(v@.z),
{
    let ax: u128 = fx_abs_u(v.x) as u128;
    let ay: u128 = fx_abs_u(v.y) as u128;
    let az: u128 = fx_abs_u(v.z) as u128;
    proof {
        assert(ax * ax == v@.x * v@.x && ay * ay == v@.y * v@.y && az * az == v@.z * v@.z)
            by (nonlinear_arith)
            requires
                ax == abs_spec(v@.x),
                ay == abs_spec(v@.y),
                az == abs_spec(v@.z),
        ;
        assert(ax * ax <= 9223372036854775808int * 9223372036854775808 && ay * ay
            <= 9223372036854775808int * 9223372036854775808 && az * az <= 9223372036854775808int
            * 9223372036854775808) by (nonlinear_arith)
            requires
                ax <= 9223372036854775808u128,
                ay <= 9223372036854775808u128,
                az <= 9223372036854775808u128,
        ;
        lemma_v3_length_bounds(v@);
    }
    let n: u128 = ax * ax + ay * ay + az * az;
    let r = crate::fx::isqrt_u128(n);
    proof {
        lemma_isqrt_unique(n as int, r as int, v3_length_spec(v@));
        assert(abs_spec(v@.x) + abs_spec(v@.y) + abs_spec(v@.z) <= i64::MAX);
    }
    r as i64
}

pub fn v3_normalize_or_zero(v: Vec3Fx) -> (r: Vec3Fx)
    requires
        bounded3(v@, 3_000_000_000_000_000_000),
    ensures
        r@ == v3_normalize_or_zero_spec(v@),
        bounded3(r@, FX_ONE as int),
{
    let l = v3_length(v);
    if l <= 0 {
        proof {
            crate::fx::lemma_isqrt_exists(
                (v@.x * v@.x + v@.y * v@.y + v@.z * v@.z) as nat,
            );
        }
        Vec3Fx { x: 0, y: 0, z: 0 }
    } else {
        proof {
            lemma_fx_div_ratio(v@.x, l as int);
            lemma_fx_div_ratio(v@.y, l as int);
            lemma_fx_div_ratio(v@.z, l as int);
        }
        Vec3Fx { x: fx_div(v.x, l), y: fx_div(v.y, l), z: fx_div(v.z, l) }
    }
}

/// The coordinates of a rotated vector are bounded by the sum of the
/// magnitudes of the operand's coordinates in the turning plane.
pub proof fn lemma_rot_bounds(v: V3, a: int, b: int)
    requires
        bounded3(v, b),
        0 <= b,
    ensures
        bounded3(rot_x_spec(v, a), 2 * b),
        bounded3(rot_y_spec(v, a), 2 * b),
{
    crate::trig::lemma_sin_range(a);
    crate::trig::lemma_cos_range(a);
    let c = cos_fx_spec(a);
    let s = sin_fx_spec(a);
    lemma_fx_mul_bound(v.x, c, b, FX_ONE as int);
    lemma_fx_mul_bound(v.x, s, b, FX_ONE as int);
    lemma_fx_mul_bound(v.y, c, b, FX_ONE as int);
    lemma_fx_mul_bound(v.y, s, b, FX_ONE as int);
    lemma_fx_mul_bound(v.z, c, b, FX_ONE as int);
    lemma_fx_mul_bound(v.z, s, b, FX_ONE as int);
    assert((b * FX_ONE) / (FX_SCALE as int) == b) by {
        vstd::arithmetic::div_mod::lemma_div_multiples_vanish(b, FX_SCALE as int);
        assert(b * (FX_ONE as int) == (FX_SCALE as int) * b) by (nonlinear_arith);
    }
}

pub fn rot_x(v: Vec3Fx, a: i64) -> (r: Vec3Fx)
    requires
        bounded3(v@, V3_OP_LIMIT as int),
        abs_spec(a as int) <= 10 * crate::fx::FX_MAX,
    ensures
        r@ == rot_x_spec(v@, a as int),
        bounded3(r@, 2 * V3_OP_LIMIT),
{
    let c = cos_fx(a);
    let s = sin_fx(a);
    proof {
        lemma_fx_mul_bound(v@.y, c as int, V3_OP_LIMIT as int, FX_ONE as int);
        lemma_fx_mul_bound(v@.y, s as int, V3_OP_LIMIT as int, FX_ONE as int);
        lemma_fx_mul_bound(v@.z, c as int, V3_OP_LIMIT as int, FX_ONE as int);
        lemma_fx_mul_bound(v@.z, s as int, V3_OP_LIMIT as int, FX_ONE as int);
        assert((V3_OP_LIMIT as int * FX_ONE) / (FX_SCALE as int) == V3_OP_LIMIT) by {
            vstd::arithmetic::div_mod::lemma_div_multiples_vanish(
                V3_OP_LIMIT as int,
                FX_SCALE as int,
            );
            assert(V3_OP_LIMIT as int * (FX_ONE as int) == (FX_SCALE as int) * (
            V3_OP_LIMIT as int)) by (nonlinear_arith);
        }
    }
    Vec3Fx {
        x: v.x,
        y: fx_mul(v.y, c) - fx_mul(v.z, s),
        z: fx_mul(v.y, s) + fx_mul(v.z, c),
    }
}

pub fn rot_y(v: Vec3Fx, a: i64) -> (r: Vec3Fx)
    requires
        bounded3(v@, V3_OP_LIMIT as int),
        abs_spec(a as int) <= 10 * crate::fx::FX_MAX,
    ensures
        r@ == rot_y_spec(v@, a as int),
        bounded3(r@, 2 * V3_OP_LIMIT),
{
    let c = cos_fx(a);
    let s = sin_fx(a);
    proof {
        lemma_fx_mul_bound(v@.x, c as int, V3_OP_LIMIT as int, FX_ONE as int);
        lemma_fx_mul_bound(v@.x, s as int, V3_OP_LIMIT as int, FX_ONE as int);
        lemma_fx_mul_bound(v@.z, c as int, V3_OP_LIMIT as int, FX_ONE as int);
        lemma_fx_mul_bound(v@.z, s as int, V3_OP_LIMIT as int, FX_ONE as int);
        assert((V3_OP_LIMIT as int * FX_ONE) / (FX_SCALE as int) == V3_OP_LIMIT) by {
            vstd::arithmetic::div_mod::lemma_div_multiples_vanish(
                V3_OP_LIMIT as int,
                FX_SCALE as int,
            );
            assert(V3_OP_LIMIT as int * (FX_ONE as int) == (FX_SCALE as int) * (
            V3_OP_LIMIT as int)) by (nonlinear_arith);
        }
    }
    Vec3Fx {
        x: fx_mul(v.x, c) + fx_mul(v.z, s),
        y: v.y,
        z: fx_mul(v.z, c) - fx_mul(v.x, s),
    }
}

} // verus!
