//! Orbit-camera geometry: conversions between (yaw, pitch, radius,
//! focus) orbit parameters and a camera transform, and the inverse
//! bootstrap used when a controller initializes from an existing
//! transform.
//!
//! A camera transform stores its orientation as yaw and pitch Euler
//! angles (rotation `Ry(yaw) * Rx(pitch)`, roll always zero): every
//! orientation this library produces has that shape, and the host
//! converts to and from its own rotation representation at the boundary.

use vstd::prelude::*;

use crate::fx::FX_EPSILON;
use crate::fx::FX_MAX;
use crate::fx::FX_ONE;
use crate::fx::FX_SCALE;
use crate::fx::MIN_RADIUS;
use crate::fx::abs_spec;
use crate::fx::fx_div;
use crate::fx::fx_div_spec;
use crate::fx::fx_max;
use crate::fx::fx_mul_spec;
use crate::fx::lemma_fx_div_ratio;
use crate::fx::max_spec;
use crate::linalg::V3;
use crate::linalg::Vec3Fx;
use crate::linalg::bounded3;
use crate::linalg::v3_add;
use crate::linalg::v3_add_spec;
use crate::linalg::v3_length;
use crate::linalg::v3_length_spec;
use crate::linalg::v3_scale;
use crate::linalg::v3_scale_spec;
use crate::linalg::v3_sub;
use crate::linalg::v3_sub_spec;
use crate::trig::acos_fx;
use crate::trig::acos_fx_spec;
use crate::trig::asin_fx;
use crate::trig::asin_fx_spec;
use crate::trig::cos_fx;
use crate::trig::cos_fx_spec;
use crate::trig::sin_fx;
use crate::trig::sin_fx_spec;

verus! {

/// A camera transform: position and a roll-free orientation given by
/// yaw (about the global Y axis) and pitch (about the local X axis).
#[derive(Clone, Copy, Debug, PartialEq, Eq, Structural)]
pub struct CameraTransform {
    pub position: Vec3Fx,
    pub yaw: i64,
    pub pitch: i64,
}

/// Mathematical view of a camera transform.
pub ghost struct TransformV {
    pub position: V3,
    pub yaw: int,
    pub pitch: int,
}

impl View for CameraTransform {
    type V = TransformV;

    open spec fn view(&self) -> TransformV {
        TransformV {
            position: self.position@,
            yaw: self.yaw as int,
            pitch: self.pitch as int,
        }
    }
}

/// Parameters of a perspective projection.
#[derive(Clone, Copy, Debug, PartialEq, Eq, Structural)]
pub struct PerspectiveParams {
    pub fov: i64,
    pub aspect_ratio: i64,
    pub near: i64,
    pub far: i64,
}

/// Parameters of an orthographic projection; `scale` plays the role the
/// orbit radius plays in perspective.
#[derive(Clone, Copy, Debug, PartialEq, Eq, Structural)]
pub struct OrthographicParams {
    pub scale: i64,
    pub area_width: i64,
    pub area_height: i64,
    pub near: i64,
    pub far: i64,
}

/// A camera projection: perspective or orthographic.
#[derive(Clone, Copy, Debug, PartialEq, Eq, Structural)]
pub enum CameraProjection {
    Perspective(PerspectiveParams),
    Orthographic(OrthographicParams),
}

impl CameraProjection {
    pub open spec fn is_orthographic(self) -> bool {
        matches!(self, CameraProjection::Orthographic(_))
    }

    pub open spec fn is_perspective(self) -> bool {
        matches!(self, CameraProjection::Perspective(_))
    }
}

/// An angle the library stores.
pub open spec fn wf_angle(a: int) -> bool {
    abs_spec(a) <= FX_MAX
}

/// A radius the library stores.
pub open spec fn wf_radius(r: int) -> bool {
    MIN_RADIUS <= r <= FX_MAX
}

/// A focus point the library stores.
pub open spec fn wf_focus(f: V3) -> bool {
    bounded3(f, FX_MAX as int)
}

/// A camera position: a focus point displaced by at most one radius.
pub open spec fn wf_position(p: V3) -> bool {
    bounded3(p, 2 * FX_MAX)
}

pub open spec fn wf_transform(t: TransformV) -> bool {
    wf_position(t.position) && wf_angle(t.yaw) && wf_angle(t.pitch)
}

pub open spec fn wf_projection(p: CameraProjection) -> bool {
    match p {
        CameraProjection::Perspective(pp) => 0 <= pp.fov <= FX_MAX && 0 <= pp.aspect_ratio
            <= FX_MAX && 0 <= pp.near <= pp.far <= FX_MAX,
        CameraProjection::Orthographic(op) => 0 <= op.scale <= FX_MAX && 0 <= op.area_width
            <= FX_MAX && 0 <= op.area_height <= FX_MAX && 0 <= op.near <= op.far <= FX_MAX,
    }
}

/// The camera's back axis (from the focus toward the camera) for orbit
/// yaw and pitch: `(cos p sin y, sin p, cos p cos y)`.
pub open spec fn orbit_back_spec(yaw: int, pitch: int) -> V3 {
    V3 {
        x: fx_mul_spec(cos_fx_spec(pitch), sin_fx_spec(yaw)),
        y: sin_fx_spec(pitch),
        z: fx_mul_spec(cos_fx_spec(pitch), cos_fx_spec(yaw)),
    }
}

/// The transform of an orbit camera: the rotation `Ry(yaw) * Rx(-pitch)`
/// and the position one radius behind the focus along the back axis.
pub open spec fn transform_from_orbit_spec(yaw: int, pitch: int, radius: int, focus: V3) -> TransformV {
    TransformV {
        position: v3_add_spec(focus, v3_scale_spec(orbit_back_spec(yaw, pitch), radius)),
        yaw: yaw,
        pitch: -pitch,
    }
}

/// Compute the transform of an orbit camera from its parameters.
pub fn camera_transform_form_orbit(yaw: i64, pitch: i64, radius: i64, focus: Vec3Fx) -> (t:
    CameraTransform)
    requires
        wf_angle(yaw as int),
        wf_angle(pitch as int),
        0 <= radius <= FX_MAX,
        wf_focus(focus@),
    ensures
        t@ == transform_from_orbit_spec(yaw as int, pitch as int, radius as int, focus@),
        wf_transform(t@),
{
    let cp = cos_fx(pitch);
    let sp = sin_fx(pitch);
    let cy = cos_fx(yaw);
    let sy = sin_fx(yaw);
    proof {
        crate::fx::lemma_fx_mul_bound(cp as int, sy as int, FX_ONE as int, FX_ONE as int);
        crate::fx::lemma_fx_mul_bound(cp as int, cy as int, FX_ONE as int, FX_ONE as int);
    }
    let back = Vec3Fx { x: crate::fx::fx_mul(cp, sy), y: sp, z: crate::fx::fx_mul(cp, cy) };
    proof {
        crate::fx::lemma_fx_mul_bound(back@.x, radius as int, FX_ONE as int, FX_MAX as int);
        crate::fx::lemma_fx_mul_bound(back@.y, radius as int, FX_ONE as int, FX_MAX as int);
        crate::fx::lemma_fx_mul_bound(back@.z, radius as int, FX_ONE as int, FX_MAX as int);
        lemma_unit_scale_bound();
    }
    let offset = v3_scale(back, radius);
    let position = v3_add(focus, offset);
    CameraTransform { position, yaw, pitch: -pitch }
}

/// Scaling a unit-bounded coordinate by `b` stays within `b`.
proof fn lemma_unit_scale_bound()
    ensures
        (FX_ONE as int * FX_MAX) / (FX_SCALE as int) == FX_MAX,
        (FX_MAX as int * FX_ONE) / (FX_SCALE as int) == FX_MAX,
{
    vstd::arithmetic::div_mod::lemma_div_multiples_vanish(FX_MAX as int, FX_SCALE as int);
    assert(FX_ONE as int * FX_MAX == (FX_SCALE as int) * (FX_MAX as int)) by (nonlinear_arith);
    assert(FX_MAX as int * FX_ONE == (FX_SCALE as int) * (FX_MAX as int)) by (nonlinear_arith);
}

/// The projection and effective radius after adapting an orthographic
/// projection: zooming an orthographic camera scales its projection, and
/// the camera itself sits at the middle of the near-far span so that
/// geometry near the focus is not clipped.
pub open spec fn ortho_adapted_spec(radius: int, proj: CameraProjection) -> (CameraProjection, int) {
    match proj {
        CameraProjection::Orthographic(op) => (
            CameraProjection::Orthographic(
                OrthographicParams {
                    scale: radius as i64,
                    area_width: op.area_width,
                    area_height: op.area_height,
                    near: op.near,
                    far: op.far,
                },
            ),
            (op.near + op.far) / 2,
        ),
        CameraProjection::Perspective(_) => (proj, radius),
    }
}

/// The transform and projection after an orbit update.
pub open spec fn update_orbit_transform_spec(
    yaw: int,
    pitch: int,
    radius: int,
    focus: V3,
    proj: CameraProjection,
) -> (TransformV, CameraProjection) {
    let (new_proj, eff_radius) = ortho_adapted_spec(radius, proj);
    (transform_from_orbit_spec(yaw, pitch, eff_radius, focus), new_proj)
}

/// Update `transform` and `projection` from orbit parameters. For an
/// orthographic projection the radius becomes the projection scale and
/// the camera is positioned at the middle of the near-far span instead.
pub fn update_orbit_transform(
    yaw: i64,
    pitch: i64,
    radius: i64,
    focus: Vec3Fx,
    transform: &mut CameraTransform,
    projection: &mut CameraProjection,
)
    requires
        wf_angle(yaw as int),
        wf_angle(pitch as int),
        0 <= radius <= FX_MAX,
        wf_focus(focus@),
        wf_projection(*old(projection)),
    ensures
        (final(transform)@, *final(projection)) == update_orbit_transform_spec(
            yaw as int,
            pitch as int,
            radius as int,
            focus@,
            *old(projection),
        ),
        wf_transform(final(transform)@),
        wf_projection(*final(projection)),
{
    let current = *projection;
    let eff_radius: i64 = match current {
        CameraProjection::Orthographic(op) => {
            let mid = (((op.near as u64) + (op.far as u64)) / 2) as i64;
            let new_op = OrthographicParams {
                scale: radius,
                area_width: op.area_width,
                area_height: op.area_height,
                near: op.near,
                far: op.far,
            };
            *projection = CameraProjection::Orthographic(new_op);
            mid
        },
        CameraProjection::Perspective(_) => radius,
    };
    *transform = camera_transform_form_orbit(yaw, pitch, eff_radius, focus);
}

/// Orbit parameters recovered from a camera position and a focus point:
/// the radius is the distance (floored), the yaw the angle of the
/// horizontal offset measured from the positive Z axis, the pitch the
/// elevation angle. The yaw keeps no sign: positions with a negative
/// horizontal X offset map to the same yaw as their mirror image.
pub open spec fn calc_from_translation_spec(t: V3, f: V3) -> (int, int, int) {
    let c = v3_sub_spec(t, f);
    let radius = max_spec(v3_length_spec(c), MIN_RADIUS as int);
    let yaw = if c.x == 0 && c.z >= 0 {
        0
    } else {
        acos_fx_spec(fx_div_spec(c.z, v3_length_spec(V3 { x: c.x, y: 0, z: c.z })))
    };
    let pitch = asin_fx_spec(fx_div_spec(c.y, radius));
    (yaw, pitch, radius)
}

/// Recover (yaw, pitch, radius) from a camera position and a focus
/// point: the bootstrap used when a controller initializes from a
/// manually placed camera.
pub fn calculate_from_translation_and_focus(translation: Vec3Fx, focus: Vec3Fx) -> (r: (i64, i64, i64))
    requires
        wf_position(translation@),
        wf_focus(focus@),
    ensures
        (r.0 as int, r.1 as int, r.2 as int) == calc_from_translation_spec(translation@, focus@),
        wf_angle(r.0 as int),
        wf_angle(r.1 as int),
        MIN_RADIUS <= r.2 <= 9 * FX_MAX,
{
    let comp_vec = v3_sub(translation, focus);
    let len = v3_length(comp_vec);
    let radius = fx_max(len, MIN_RADIUS);
    let yaw: i64 = if comp_vec.x == 0 && comp_vec.z >= 0 {
        0
    } else {
        let horizontal = Vec3Fx { x: comp_vec.x, y: 0, z: comp_vec.z };
        let h = v3_length(horizontal);
        assert(h >= 1);
        proof {
            lemma_fx_div_ratio(comp_vec@.z, h as int);
        }
        acos_fx(fx_div(comp_vec.z, h))
    };
    proof {
        lemma_fx_div_ratio(comp_vec@.y, radius as int);
    }
    let pitch = asin_fx(fx_div(comp_vec.y, radius));
    (yaw, pitch, radius)
}

/// The back axis of a transform (away from what the camera looks at).
/// The transform's pitch angle is the negated orbit pitch.
pub open spec fn transform_back_spec(t: TransformV) -> V3 {
    orbit_back_spec(t.yaw, -t.pitch)
}

/// The forward axis of a transform (toward what the camera looks at).
pub open spec fn transform_forward_spec(t: TransformV) -> V3 {
    let b = transform_back_spec(t);
    V3 { x: -b.x, y: -b.y, z: -b.z }
}

/// The right axis of a transform: `(cos y, 0, -sin y)`.
pub open spec fn transform_right_spec(t: TransformV) -> V3 {
    V3 { x: cos_fx_spec(t.yaw), y: 0, z: -sin_fx_spec(t.yaw) }
}

/// The up axis of a transform:
/// `(sin p sin y, cos p, sin p cos y)` for the raw pitch angle `p`.
pub open spec fn transform_up_spec(t: TransformV) -> V3 {
    V3 {
        x: fx_mul_spec(sin_fx_spec(t.pitch), sin_fx_spec(t.yaw)),
        y: cos_fx_spec(t.pitch),
        z: fx_mul_spec(sin_fx_spec(t.pitch), cos_fx_spec(t.yaw)),
    }
}

/// Angle magnitude under which the transform axis helpers accept their
/// argument (ten times the stored range, so that unclamped intermediate
/// angles can be used).
pub open spec fn axis_angle_ok(a: int) -> bool {
    abs_spec(a) <= 10 * FX_MAX
}

pub fn transform_back(t: &CameraTransform) -> (r: Vec3Fx)
    requires
        axis_angle_ok(t.yaw as int),
        axis_angle_ok(t.pitch as int),
    ensures
        r@ == transform_back_spec(t@),
        crate::linalg::bounded3(r@, FX_ONE as int),
{
    let po = -t.pitch;
    let cp = cos_fx(po);
    let sp = sin_fx(po);
    let cy = cos_fx(t.yaw);
    let sy = sin_fx(t.yaw);
    proof {
        crate::fx::lemma_fx_mul_bound(cp as int, sy as int, FX_ONE as int, FX_ONE as int);
        crate::fx::lemma_fx_mul_bound(cp as int, cy as int, FX_ONE as int, FX_ONE as int);
    }
    Vec3Fx { x: crate::fx::fx_mul(cp, sy), y: sp, z: crate::fx::fx_mul(cp, cy) }
}

pub fn transform_forward(t: &CameraTransform) -> (r: Vec3Fx)
    requires
        axis_angle_ok(t.yaw as int),
        axis_angle_ok(t.pitch as int),
    ensures
        r@ == transform_forward_spec(t@),
        crate::linalg::bounded3(r@, FX_ONE as int),
{
    let b = transform_back(t);
    Vec3Fx { x: -b.x, y: -b.y, z: -b.z }
}

pub fn transform_right(t: &CameraTransform) -> (r: Vec3Fx)
    requires
        axis_angle_ok(t.yaw as int),
    ensures
        r@ == transform_right_spec(t@),
        crate::linalg::bounded3(r@, FX_ONE as int),
{
    Vec3Fx { x: cos_fx(t.yaw), y: 0, z: -sin_fx(t.yaw) }
}

pub fn transform_up(t: &CameraTransform) -> (r: Vec3Fx)
    requires
        axis_angle_ok(t.yaw as int),
        axis_angle_ok(t.pitch as int),
    ensures
        r@ == transform_up_spec(t@),
        crate::linalg::bounded3(r@, FX_ONE as int),
{
    let cp = cos_fx(t.pitch);
    let sp = sin_fx(t.pitch);
    let cy = cos_fx(t.yaw);
    let sy = sin_fx(t.yaw);
    proof {
        crate::fx::lemma_fx_mul_bound(sp as int, sy as int, FX_ONE as int, FX_ONE as int);
        crate::fx::lemma_fx_mul_bound(sp as int, cy as int, FX_ONE as int, FX_ONE as int);
    }
    Vec3Fx { x: crate::fx::fx_mul(sp, sy), y: cp, z: crate::fx::fx_mul(sp, cy) }
}

/// Updating a transform and projection twice from the same orbit
/// parameters gives the same transform and projection as updating once:
/// the update depends on nothing but its arguments.
pub proof fn lemma_update_orbit_transform_idempotent(
    yaw: int,
    pitch: int,
    radius: int,
    focus: V3,
    proj: CameraProjection,
)
    ensures
        ({
            let (t1, p1) = update_orbit_transform_spec(yaw, pitch, radius, focus, proj);
            let (t2, p2) = update_orbit_transform_spec(yaw, pitch, radius, focus, p1);
            t2 == t1 && p2 == p1
        }),
{
}

/// Round trip of the orbit bootstrap at the canonical orientations: for
/// a transform built from canonical yaw and pitch, recovering the orbit
/// parameters from its position gives the radius and pitch back exactly
/// and the yaw within the library's tolerance. Yaws outside `[0, pi]`
/// are not recovered (the bootstrap keeps no yaw sign), and at the poles
/// the yaw collapses to zero, so those orientations are left out.
pub proof fn lemma_orbit_round_trip_canonical(yaw: int, pitch: int, radius: int, focus: V3)
    requires
        wf_focus(focus),
        MIN_RADIUS <= radius <= FX_MAX,
        (pitch == 0 && (yaw == 0 || yaw == crate::fx::FX_HALF_PI || yaw == crate::fx::FX_PI)) || (
        yaw == 0 && (pitch == crate::fx::FX_HALF_PI || pitch == -(crate::fx::FX_HALF_PI as int))),
    ensures
        ({
            let t = transform_from_orbit_spec(yaw, pitch, radius, focus);
            let (y2, p2, r2) = calc_from_translation_spec(t.position, focus);
            abs_spec(y2 - yaw) <= FX_EPSILON && p2 == pitch && r2 == radius
        }),
{
    crate::trig::lemma_trig_axis_values();
    crate::trig::lemma_arc_axis_values();
    crate::fx::lemma_fx_mul_units(radius);
    crate::fx::lemma_fx_mul_units(sin_fx_spec(yaw));
    crate::fx::lemma_fx_mul_units(cos_fx_spec(yaw));
    crate::fx::lemma_fx_mul_units(sin_fx_spec(pitch));
    crate::fx::lemma_fx_mul_units(0);
    crate::fx::lemma_fx_mul_neg_one(radius);
    crate::fx::lemma_fx_div_self(radius);
    crate::fx::lemma_sqrt_square(radius);
    let t = transform_from_orbit_spec(yaw, pitch, radius, focus);
    let c = v3_sub_spec(t.position, focus);
    assert(c == v3_scale_spec(orbit_back_spec(yaw, pitch), radius));
    if pitch == 0 && yaw == 0 {
        assert(c == (V3 { x: 0, y: 0, z: radius }));
    } else if pitch == 0 && yaw == crate::fx::FX_HALF_PI {
        assert(c == (V3 { x: radius, y: 0, z: 0 }));
    } else if pitch == 0 && yaw == crate::fx::FX_PI {
        assert(c == (V3 { x: 0, y: 0, z: -radius }));
    } else if pitch == crate::fx::FX_HALF_PI {
        assert(c == (V3 { x: 0, y: radius, z: 0 }));
    } else {
        assert(c == (V3 { x: 0, y: -radius, z: 0 }));
    }
    assert(radius * radius == c.x * c.x + c.y * c.y + c.z * c.z) by (nonlinear_arith)
        requires
            c.x == 0 && abs_spec(c.y) == radius && c.z == 0 || c.y == 0 && abs_spec(c.x) == radius
                && c.z == 0 || c.x == 0 && c.y == 0 && abs_spec(c.z) == radius,
    ;
    assert(v3_length_spec(c) == radius);
    if c.x != 0 || c.z < 0 {
        let h = V3 { x: c.x, y: 0, z: c.z };
        assert(radius * radius == h.x * h.x + h.y * h.y + h.z * h.z) by (nonlinear_arith)
            requires
                h.y == 0,
                h.x == 0 && abs_spec(h.z) == radius || h.z == 0 && abs_spec(h.x) == radius,
        ;
        assert(v3_length_spec(h) == radius);
    }
}

/// Round trip of the orbit bootstrap on the horizontal plane: a
/// transform built with zero pitch keeps its camera level, so the
/// bootstrap recovers a pitch of exactly zero — for every yaw, radius
/// and focus.
pub proof fn lemma_orbit_round_trip_level(yaw: int, radius: int, focus: V3)
    requires
        wf_focus(focus),
        MIN_RADIUS <= radius <= FX_MAX,
    ensures
        ({
            let t = transform_from_orbit_spec(yaw, 0, radius, focus);
            let (_, p2, _) = calc_from_translation_spec(t.position, focus);
            p2 == 0
        }),
{
    crate::trig::lemma_trig_axis_values();
    crate::fx::lemma_fx_mul_units(radius);
    let t = transform_from_orbit_spec(yaw, 0, radius, focus);
    let c = v3_sub_spec(t.position, focus);
    assert(c.y == 0);
    let r2 = max_spec(v3_length_spec(c), MIN_RADIUS as int);
    crate::linalg::lemma_v3_length_bounds(c);
    crate::fx::lemma_fx_div_self(r2);
    assert(asin_fx_spec(fx_div_spec(0, r2)) == 0);
}

/// Whether two fixed-point values differ by less than the library's
/// fixed tolerance of one thousandth of a unit.
pub open spec fn approx_equal_spec(a: int, b: int) -> bool {
    abs_spec(a - b) < FX_EPSILON
}

pub fn approx_equal(a: i64, b: i64) -> (r: bool)
    requires
        abs_spec(a as int) <= 4_000_000_000_000_000_000,
        abs_spec(b as int) <= 4_000_000_000_000_000_000,
    ensures
        r == approx_equal_spec(a as int, b as int),
{
    let d = a - b;
    let m = if d >= 0 {
        d
    } else {
        -d
    };
    m < FX_EPSILON
}

} // verus!
