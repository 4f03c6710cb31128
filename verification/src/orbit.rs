//! The orbit camera controller: stateful pan/orbit/zoom logic for one
//! camera, including lazy initialization from an existing transform,
//! zoom-to-cursor pivot tracking, auto-depth re-targeting and
//! upside-down yaw inversion.

use vstd::prelude::*;

use crate::fx::FX_INPUT_MAX;
use crate::fx::FX_MAX;
use crate::fx::FX_ONE;
use crate::fx::FX_PI;
use crate::fx::FX_TWO_PI;
use crate::fx::MIN_RADIUS;
use crate::fx::abs_spec;
use crate::fx::clamp_spec;
use crate::fx::fx_clamp;
use crate::fx::fx_div_clamped;
use crate::fx::fx_div_clamped_spec;
use crate::fx::fx_max;
use crate::fx::fx_min;
use crate::fx::fx_mul_clamped;
use crate::fx::fx_mul_clamped_spec;
use crate::fx::max_spec;
use crate::fx::min_spec;
use crate::input::ButtonInput;
use crate::input::MouseKeyTracker;
use crate::input::TrackerV;
use crate::input::orbit_just_pressed;
use crate::input::orbit_just_pressed_spec;
use crate::input::pan_just_pressed;
use crate::input::pan_just_pressed_spec;
use crate::input::wf_tracker;
use crate::linalg::RayFx;
use crate::linalg::V2;
use crate::linalg::V3;
use crate::linalg::Vec2Fx;
use crate::linalg::Vec3Fx;
use crate::linalg::bounded2;
use crate::linalg::bounded3;
use crate::linalg::clamp3;
use crate::linalg::clamp3_spec;
use crate::linalg::lemma_rot_bounds;
use crate::linalg::rot_x;
use crate::linalg::rot_x_spec;
use crate::linalg::rot_y;
use crate::linalg::rot_y_spec;
use crate::linalg::v3_add;
use crate::linalg::v3_add_spec;
use crate::linalg::v3_dot;
use crate::linalg::v3_dot_spec;
use crate::linalg::v3_length;
use crate::linalg::v3_length_spec;
use crate::linalg::v3_normalize_or_zero;
use crate::linalg::v3_normalize_or_zero_spec;
use crate::linalg::v3_scale_clamped;
use crate::linalg::v3_scale_clamped_spec;
use crate::linalg::v3_sub;
use crate::linalg::v3_sub_spec;
use crate::linalg::wf_ray;
use crate::trig::cos_fx;
use crate::trig::cos_fx_spec;
use crate::utils::CameraProjection;
use crate::utils::CameraTransform;
use crate::utils::TransformV;
use crate::utils::calc_from_translation_spec;
use crate::utils::calculate_from_translation_and_focus;
use crate::utils::camera_transform_form_orbit;
use crate::utils::transform_forward;
use crate::utils::transform_forward_spec;
use crate::utils::transform_from_orbit_spec;
use crate::utils::transform_right;
use crate::utils::transform_right_spec;
use crate::utils::transform_up;
use crate::utils::transform_up_spec;
use crate::utils::update_orbit_transform;
use crate::utils::update_orbit_transform_spec;
use crate::utils::wf_angle;
use crate::utils::wf_focus;
use crate::utils::wf_projection;
use crate::utils::wf_radius;
use crate::utils::wf_transform;

verus! {

/// Identifier of a mouse button, assigned by the host.
pub const MOUSE_BUTTON_LEFT: u32 = 0;

/// Identifier of the middle mouse button, the default drag button.
pub const MOUSE_BUTTON_MIDDLE: u32 = 1;

/// Identifier of the right mouse button.
pub const MOUSE_BUTTON_RIGHT: u32 = 2;

/// Identifier of the left shift key, the default pan modifier.
pub const KEY_SHIFT_LEFT: u32 = 101;

/// Per-camera state for orbiting, panning and zooming. The camera must
/// also carry a transform and a projection.
#[derive(Debug, Clone, Copy)]
pub struct OrbitCameraController {
    /// The point the camera looks at, orbits around and zooms toward.
    pub focus: Vec3Fx,
    /// Distance between the camera and the focus; computed from the
    /// camera's position on initialization when unset.
    pub radius: Option<i64>,
    /// Rotation around the global Y axis; computed on initialization
    /// when unset.
    pub yaw: Option<i64>,
    /// Elevation angle toward the focus; computed on initialization
    /// when unset.
    pub pitch: Option<i64>,
    /// Sensitivity of the orbiting motion.
    pub orbit_sensitivity: i64,
    /// Sensitivity of the panning motion.
    pub pan_sensitivity: i64,
    /// Sensitivity of the zooming motion.
    pub zoom_sensitivity: i64,
    /// Mouse button that orbits the camera.
    pub button_orbit: u32,
    /// Key that must be held for `button_orbit` to act.
    pub modifier_orbit: Option<u32>,
    /// Mouse button that pans the camera.
    pub button_pan: u32,
    /// Key that must be held for `button_pan` to act.
    pub modifier_pan: Option<u32>,
    /// The controller moves the camera only while enabled.
    pub is_enabled: bool,
    /// Whether yaw, pitch and radius have been established.
    pub is_initialized: bool,
    /// Zoom toward the point under the cursor instead of the focus.
    pub zoom_to_mouse_position: bool,
    /// Re-target focus and radius to the surface under the cursor while
    /// interacting.
    pub auto_depth: bool,
    /// Wrap the cursor across the viewport edges while dragging.
    pub wrap_cursor: bool,
    /// Whether the camera is currently upside down, inverting the yaw
    /// direction; recomputed on each orbit-button edge.
    pub is_upside_down: bool,
    /// Apply the transform on the next update even without input;
    /// cleared after one frame.
    pub force_update: bool,
}

impl OrbitCameraController {
    /// Well-formedness: stored angles and radius are in the library's
    /// range, sensitivities are bounded inputs, and an initialized
    /// controller has all three orbit parameters.
    pub open spec fn wf(self) -> bool {
        &&& wf_focus(self.focus@)
        &&& (self.radius is Some ==> wf_radius(self.radius->0 as int))
        &&& (self.yaw is Some ==> wf_angle(self.yaw->0 as int))
        &&& (self.pitch is Some ==> wf_angle(self.pitch->0 as int))
        &&& 0 <= self.orbit_sensitivity <= FX_INPUT_MAX
        &&& 0 <= self.pan_sensitivity <= FX_INPUT_MAX
        &&& 0 <= self.zoom_sensitivity <= FX_INPUT_MAX
        &&& (self.is_initialized ==> self.radius is Some && self.yaw is Some && self.pitch is Some)
    }
}

impl Default for OrbitCameraController {
    /// The stock configuration: orbit on the middle mouse button, pan
    /// on the same button with left shift held, all sensitivities one,
    /// zoom to cursor and auto depth on, orbit parameters unset.
    fn default() -> (c: Self)
        ensures
            c.wf(),
            !c.is_initialized,
            c.is_enabled,
            c.focus == Vec3Fx::spec_zero(),
            c.radius is None,
            c.yaw is None,
            c.pitch is None,
            c.orbit_sensitivity == 1_000_000 && c.pan_sensitivity == 1_000_000
                && c.zoom_sensitivity == 1_000_000,
            c.button_orbit == MOUSE_BUTTON_MIDDLE && c.modifier_orbit is None,
            c.button_pan == MOUSE_BUTTON_MIDDLE,
            c.modifier_pan == Some(KEY_SHIFT_LEFT),
            c.zoom_to_mouse_position && c.auto_depth && c.wrap_cursor,
            !c.is_upside_down && !c.force_update,
    {
        OrbitCameraController {
            focus: Vec3Fx::zero(),
            radius: None,
            yaw: None,
            pitch: None,
            orbit_sensitivity: 1_000_000,
            pan_sensitivity: 1_000_000,
            zoom_sensitivity: 1_000_000,
            button_orbit: MOUSE_BUTTON_MIDDLE,
            modifier_orbit: None,
            button_pan: MOUSE_BUTTON_MIDDLE,
            modifier_pan: Some(KEY_SHIFT_LEFT),
            is_enabled: true,
            is_initialized: false,
            zoom_to_mouse_position: true,
            auto_depth: true,
            wrap_cursor: true,
            is_upside_down: false,
            force_update: false,
        }
    }
}

/// Initialization: on an uninitialized controller, any unset orbit
/// parameter is derived from the camera's transform (the radius capped
/// at the library's coordinate range), the orbit transform is applied
/// once and the controller is marked initialized; an initialized
/// controller is left alone.
#[verifier::opaque]
pub open spec fn initialize_spec(
    c: OrbitCameraController,
    t: TransformV,
    proj: CameraProjection,
) -> (OrbitCameraController, TransformV, CameraProjection) {
    if c.is_initialized {
        (c, t, proj)
    } else {
        let (cy, cp, cr) = calc_from_translation_spec(t.position, c.focus@);
        let ny = if c.yaw is Some {
            c.yaw->0 as int
        } else {
            cy
        };
        let np = if c.pitch is Some {
            c.pitch->0 as int
        } else {
            cp
        };
        let nr = if c.radius is Some {
            c.radius->0 as int
        } else {
            min_spec(cr, FX_MAX as int)
        };
        let (t1, p1) = update_orbit_transform_spec(ny, np, nr, c.focus@, proj);
        (
            OrbitCameraController {
                yaw: Some(ny as i64),
                pitch: Some(np as i64),
                radius: Some(nr as i64),
                is_initialized: true,
                ..c
            },
            t1,
            p1,
        )
    }
}

impl OrbitCameraController {
    /// On first use, derive any unset orbit parameter from the camera's
    /// existing transform (the radius capped at the library's coordinate
    /// range), apply the orbit transform once, and mark the controller
    /// initialized. Does nothing on an initialized controller.
    pub fn initialize_if_necessary(
        &mut self,
        transform: &mut CameraTransform,
        projection: &mut CameraProjection,
    )
        requires
            old(self).wf(),
            wf_transform(old(transform)@),
            wf_projection(*old(projection)),
        ensures
            final(self).wf(),
            wf_transform(final(transform)@),
            wf_projection(*final(projection)),
            final(self).is_initialized,
            (*final(self), final(transform)@, *final(projection)) == initialize_spec(
                *old(self),
                old(transform)@,
                *old(projection),
            ),
    {
        proof {
            reveal(initialize_spec);
        }
        if !self.is_initialized {
            let (cy, cp, cr) = calculate_from_translation_and_focus(transform.position, self.focus);
            let ny = match self.yaw {
                Some(y) => y,
                None => cy,
            };
            let np = match self.pitch {
                Some(p) => p,
                None => cp,
            };
            let nr = match self.radius {
                Some(r) => r,
                None => fx_min(cr, FX_MAX),
            };
            self.yaw = Some(ny);
            self.pitch = Some(np);
            self.radius = Some(nr);
            update_orbit_transform(ny, np, nr, self.focus, transform, projection);
            self.is_initialized = true;
        }
    }
}

/// The projection cached for later switching when a camera gains an
/// orbit controller: a stock projection of the kind opposite the
/// active one, so that the first projection toggle has something to
/// swap in. The stock perspective looks through a quarter-revolution
/// field of view between 0.1 and 1000 units; the stock orthographic
/// spans one unit of height at scale one.
pub open spec fn initial_saved_projection_spec(active: CameraProjection) -> CameraProjection {
    match active {
        CameraProjection::Perspective(_) => CameraProjection::Orthographic(
            crate::utils::OrthographicParams {
                scale: 1_000_000,
                area_width: 1_000_000,
                area_height: 1_000_000,
                near: 0,
                far: 1_000_000_000,
            },
        ),
        CameraProjection::Orthographic(_) => CameraProjection::Perspective(
            crate::utils::PerspectiveParams {
                fov: 785_398,
                aspect_ratio: 1_000_000,
                near: 100_000,
                far: 1_000_000_000,
            },
        ),
    }
}

/// Build the projection to cache when a camera gains an orbit
/// controller.
pub fn initial_saved_projection(active: &CameraProjection) -> (r: CameraProjection)
    ensures
        r == initial_saved_projection_spec(*active),
        crate::utils::wf_projection(r),
{
    match active {
        CameraProjection::Perspective(_) => CameraProjection::Orthographic(
            crate::utils::OrthographicParams {
                scale: 1_000_000,
                area_width: 1_000_000,
                area_height: 1_000_000,
                near: 0,
                far: 1_000_000_000,
            },
        ),
        CameraProjection::Orthographic(_) => CameraProjection::Perspective(
            crate::utils::PerspectiveParams {
                fov: 785_398,
                aspect_ratio: 1_000_000,
                near: 100_000,
                far: 1_000_000_000,
            },
        ),
    }
}

/// Range within which the pivot point is kept.
pub const PIVOT_LIMIT: i64 = 4_000_000_000_000;

/// A stored pivot point.
pub open spec fn wf_pivot(p: V3) -> bool {
    bounded3(p, PIVOT_LIMIT as int)
}

/// A window or viewport size the controllers can divide by: at least
/// one pixel on each side.
pub open spec fn wf_size(s: Option<Vec2Fx>) -> bool {
    s is Some ==> FX_ONE <= s->0.x <= FX_INPUT_MAX && FX_ONE <= s->0.y <= FX_INPUT_MAX
}

/// The pivot point is re-sampled when a drag begins or a scroll occurs,
/// and only for a controller that zooms to the cursor or re-targets
/// depth.
pub open spec fn pivot_trigger_spec(
    c: OrbitCameraController,
    mouse: &ButtonInput,
    keys: &ButtonInput,
    tk: TrackerV,
) -> bool {
    (c.auto_depth || c.zoom_to_mouse_position) && (orbit_just_pressed_spec(c, mouse, keys)
        || pan_just_pressed_spec(c, mouse, keys) || tk.scroll_line != 0 || tk.scroll_pixel != 0)
}

/// Pivot sampling: the nearest surface hit anchors the pivot; with auto
/// depth the focus (and, in perspective, the radius) re-target to the
/// camera-axis projection of that anchor. Without a hit the pivot falls
/// back to a point along the cursor ray: one orbit radius out (adjusted
/// for the ray's obliquity) in perspective, half the near-far span out
/// in orthographic. Returns the new focus, radius and pivot.
#[verifier::opaque]
pub open spec fn pivot_update_spec(
    c: OrbitCameraController,
    pivot: V3,
    ray: Option<RayFx>,
    hit: Option<Vec3Fx>,
    t: TransformV,
    proj: CameraProjection,
) -> (V3, int, V3) {
    if ray is None {
        (c.focus@, c.radius->0 as int, pivot)
    } else if hit is Some {
        let p = hit->0@;
        if c.auto_depth {
            let ct = if proj.is_orthographic() {
                transform_from_orbit_spec(
                    c.yaw->0 as int,
                    c.pitch->0 as int,
                    c.radius->0 as int,
                    c.focus@,
                )
            } else {
                t
            };
            let c2p = v3_sub_spec(p, ct.position);
            let dist = v3_length_spec(c2p);
            let dir = v3_normalize_or_zero_spec(c2p);
            let fwd = transform_forward_spec(ct);
            let factor = v3_dot_spec(fwd, dir);
            let nr = max_spec(fx_mul_clamped_spec(dist, factor), MIN_RADIUS as int);
            let nf = clamp3_spec(
                v3_add_spec(ct.position, v3_scale_clamped_spec(fwd, nr)),
                FX_MAX as int,
            );
            let rad = if proj.is_perspective() {
                nr
            } else {
                c.radius->0 as int
            };
            (nf, rad, p)
        } else {
            (c.focus@, c.radius->0 as int, p)
        }
    } else {
        let r = ray->0;
        let npv = match proj {
            CameraProjection::Perspective(_) => {
                let fwd = transform_forward_spec(t);
                let factor = v3_dot_spec(fwd, r.direction@);
                if factor >= 1 {
                    clamp3_spec(
                        v3_add_spec(
                            t.position,
                            v3_scale_clamped_spec(
                                r.direction@,
                                fx_div_clamped_spec(c.radius->0 as int, factor),
                            ),
                        ),
                        PIVOT_LIMIT as int,
                    )
                } else {
                    pivot
                }
            },
            CameraProjection::Orthographic(op) => clamp3_spec(
                v3_add_spec(
                    r.origin@,
                    v3_scale_clamped_spec(r.direction@, ((op.far - op.near) / 2) as int),
                ),
                PIVOT_LIMIT as int,
            ),
        };
        (c.focus@, c.radius->0 as int, npv)
    }
}

/// Orbit rotation: the yaw delta is the horizontal motion as a fraction
/// of the window width times a full revolution (reversed while upside
/// down), the pitch delta the vertical motion as a fraction of the
/// window height times half a revolution. With auto depth the focus
/// follows a rigid rotation of the previous camera pose about the
/// pivot. Returns the new yaw, pitch and focus, and whether the camera
/// moved.
#[verifier::opaque]
pub open spec fn orbit_rotation_spec(
    yaw0: int,
    pitch0: int,
    radius0: int,
    focus0: V3,
    upside: bool,
    auto_depth: bool,
    sens: int,
    orbit_delta: V2,
    ws: Option<Vec2Fx>,
    pivot: V3,
) -> (int, int, V3, bool) {
    let ox = fx_mul_clamped_spec(orbit_delta.x, sens);
    let oy = fx_mul_clamped_spec(orbit_delta.y, sens);
    if (ox != 0 || oy != 0) && ws is Some {
        let w = ws->0;
        let d0 = fx_mul_clamped_spec(fx_div_clamped_spec(ox, w.x as int), FX_TWO_PI as int);
        let dy = if upside {
            -d0
        } else {
            d0
        };
        let dp = fx_mul_clamped_spec(fx_div_clamped_spec(oy, w.y as int), FX_PI as int);
        let ny = clamp_spec(yaw0 - dy, -(FX_MAX as int), FX_MAX as int);
        let np = clamp_spec(pitch0 + dp, -(FX_MAX as int), FX_MAX as int);
        let nf = if auto_depth {
            let tmp = transform_from_orbit_spec(yaw0, pitch0, radius0, focus0);
            let v0 = v3_sub_spec(tmp.position, pivot);
            let v1 = rot_y_spec(v0, -yaw0);
            let v2 = rot_x_spec(v1, pitch0);
            let v3a = rot_x_spec(v2, -dp);
            let v4 = rot_x_spec(v3a, -pitch0);
            let v5 = rot_y_spec(v4, yaw0);
            let v6 = rot_y_spec(v5, -dy);
            let tpos = v3_add_spec(pivot, v6);
            let fwd = transform_forward_spec(
                TransformV { position: tpos, yaw: yaw0 - dy, pitch: -(pitch0 + dp) },
            );
            clamp3_spec(v3_add_spec(tpos, v3_scale_clamped_spec(fwd, radius0)), FX_MAX as int)
        } else {
            focus0
        };
        (ny, np, nf, true)
    } else {
        (yaw0, pitch0, focus0, false)
    }
}

/// Panning: the motion is scaled so that its apparent size is
/// independent of resolution and field of view (and, in perspective,
/// proportional to the orbit radius), then applied to the focus along
/// the camera's right and up axes. Returns the new focus and whether
/// the camera moved.
#[verifier::opaque]
pub open spec fn orbit_pan_spec(
    focus0: V3,
    radius0: int,
    sens: int,
    pan_delta: V2,
    t: TransformV,
    proj: CameraProjection,
    vp: Option<Vec2Fx>,
) -> (V3, bool) {
    let px = fx_mul_clamped_spec(pan_delta.x, sens);
    let py = fx_mul_clamped_spec(pan_delta.y, sens);
    if (px != 0 || py != 0) && vp is Some {
        let v = vp->0;
        let sx = match proj {
            CameraProjection::Perspective(pp) => fx_div_clamped_spec(
                fx_mul_clamped_spec(pp.fov as int, pp.aspect_ratio as int),
                v.x as int,
            ),
            CameraProjection::Orthographic(op) => fx_div_clamped_spec(
                op.area_width as int,
                v.x as int,
            ),
        };
        let sy = match proj {
            CameraProjection::Perspective(pp) => fx_div_clamped_spec(pp.fov as int, v.y as int),
            CameraProjection::Orthographic(op) => fx_div_clamped_spec(
                op.area_height as int,
                v.y as int,
            ),
        };
        let mult = match proj {
            CameraProjection::Perspective(_) => radius0,
            CameraProjection::Orthographic(_) => FX_ONE as int,
        };
        let px2 = fx_mul_clamped_spec(px, sx);
        let py2 = fx_mul_clamped_spec(py, sy);
        let right = transform_right_spec(t);
        let up = transform_up_spec(t);
        let tr = v3_add_spec(v3_scale_clamped_spec(right, -px2), v3_scale_clamped_spec(up, py2));
        let tr2 = v3_scale_clamped_spec(tr, mult);
        let nf = clamp3_spec(v3_add_spec(focus0, tr2), FX_MAX as int);
        (nf, true)
    } else {
        (focus0, false)
    }
}

/// Zooming: the radius steps by a fifth of itself per scroll unit
/// (floored at the minimum radius). Zooming to the cursor moves the
/// focus so that the pivot stays visually fixed: in perspective the
/// camera dollies along the pivot direction, in orthographic the
/// focus-to-pivot offset shrinks with the scale; a pivot at or past a
/// right angle to the view direction admits no dolly along it, and the
/// focus stays. Returns the new focus and radius, and whether the
/// camera moved.
#[verifier::opaque]
pub open spec fn orbit_zoom_spec(
    focus0: V3,
    radius0: int,
    zoom_to_mouse: bool,
    sens: int,
    line: int,
    pixel: int,
    t: TransformV,
    proj: CameraProjection,
    pivot: V3,
) -> (V3, int, bool) {
    let sl = fx_mul_clamped_spec(line, sens);
    let sp = fx_mul_clamped_spec(pixel, sens);
    if sl + sp != 0 {
        let line_delta = -fx_mul_clamped_spec(fx_mul_clamped_spec(sl, radius0), 200_000);
        let pixel_delta = -fx_mul_clamped_spec(fx_mul_clamped_spec(sp, radius0), 200_000);
        let radius_delta = line_delta + pixel_delta;
        let nr = clamp_spec(radius0 + radius_delta, MIN_RADIUS as int, FX_MAX as int);
        let nf = if zoom_to_mouse {
            match proj {
                CameraProjection::Perspective(_) => {
                    let c2p = v3_sub_spec(pivot, t.position);
                    let dir = v3_normalize_or_zero_spec(c2p);
                    let fwd = transform_forward_spec(t);
                    let factor = v3_dot_spec(fwd, dir);
                    if factor >= 1 {
                        let npos = v3_add_spec(
                            t.position,
                            v3_scale_clamped_spec(dir, fx_div_clamped_spec(-radius_delta, factor)),
                        );
                        clamp3_spec(
                            v3_add_spec(npos, v3_scale_clamped_spec(fwd, nr)),
                            FX_MAX as int,
                        )
                    } else {
                        focus0
                    }
                },
                CameraProjection::Orthographic(_) => {
                    let f2p = v3_sub_spec(pivot, focus0);
                    let l1 = rot_y_spec(f2p, -t.yaw);
                    let l2 = rot_x_spec(l1, -t.pitch);
                    let flat = V3 { x: l2.x, y: l2.y, z: 0 };
                    let w1 = rot_x_spec(flat, t.pitch);
                    let w2 = rot_y_spec(w1, t.yaw);
                    let k = FX_ONE - fx_div_clamped_spec(nr, radius0);
                    clamp3_spec(v3_add_spec(focus0, v3_scale_clamped_spec(w2, k)), FX_MAX as int)
                },
            }
        } else {
            focus0
        };
        (nf, nr, true)
    } else {
        (focus0, radius0, false)
    }
}

/// One frame of the orbit controller: pivot sampling, the upside-down
/// recomputation on an orbit-button edge, then rotation, panning and
/// zooming in that order. Returns the controller and pivot after the
/// frame, and whether the camera moved.
pub open spec fn orbit_camera_spec(
    c: OrbitCameraController,
    pivot: V3,
    ray: Option<RayFx>,
    hit: Option<Vec3Fx>,
    t: TransformV,
    proj: CameraProjection,
    ws: Option<Vec2Fx>,
    vp: Option<Vec2Fx>,
    mouse: &ButtonInput,
    keys: &ButtonInput,
    tk: TrackerV,
) -> (OrbitCameraController, V3, bool) {
    let (f1, r1, pv1) = if pivot_trigger_spec(c, mouse, keys, tk) {
        pivot_update_spec(c, pivot, ray, hit, t, proj)
    } else {
        (c.focus@, c.radius->0 as int, pivot)
    };
    let upside = if tk.orbit_button_changed {
        cos_fx_spec(t.pitch) <= 0
    } else {
        c.is_upside_down
    };
    let (y2, p2, f2, m_rot) = orbit_rotation_spec(
        c.yaw->0 as int,
        c.pitch->0 as int,
        r1,
        f1,
        upside,
        c.auto_depth,
        c.orbit_sensitivity as int,
        tk.orbit,
        ws,
        pv1,
    );
    let (f3, m_pan) = orbit_pan_spec(f2, r1, c.pan_sensitivity as int, tk.pan, t, proj, vp);
    let (f4, r4, m_zoom) = orbit_zoom_spec(
        f3,
        r1,
        c.zoom_to_mouse_position,
        c.zoom_sensitivity as int,
        tk.scroll_line,
        tk.scroll_pixel,
        t,
        proj,
        pv1,
    );
    (
        OrbitCameraController {
            focus: crate::linalg::vec_of_v3(f4),
            radius: Some(r4 as i64),
            yaw: Some(y2 as i64),
            pitch: Some(p2 as i64),
            is_upside_down: upside,
            ..c
        },
        pv1,
        m_rot || m_pan || m_zoom,
    )
}

/// Pivot sampling for one frame; updates the pivot in place and
/// returns the focus and radius after any auto-depth re-targeting.
fn pivot_stage(
    controller: &OrbitCameraController,
    pivot_point: &mut Vec3Fx,
    cursor_ray: Option<RayFx>,
    nearest_hit: Option<Vec3Fx>,
    transform: &CameraTransform,
    projection: &CameraProjection,
) -> (r: (Vec3Fx, i64))
    requires
        controller.wf(),
        controller.is_initialized,
        wf_pivot(old(pivot_point)@),
        cursor_ray is Some ==> wf_ray(cursor_ray->0),
        nearest_hit is Some ==> bounded3(nearest_hit->0@, FX_MAX as int),
        wf_transform(transform@),
        wf_projection(*projection),
    ensures
        ({
            let (sf, sr, spv) = pivot_update_spec(
                *controller,
                old(pivot_point)@,
                cursor_ray,
                nearest_hit,
                transform@,
                *projection,
            );
            r.0@ == sf && r.1 as int == sr && final(pivot_point)@ == spv
        }),
        wf_focus(r.0@),
        wf_radius(r.1 as int),
        wf_pivot(final(pivot_point)@),
{
    proof {
        reveal(pivot_update_spec);
    }
    let yaw0 = match controller.yaw {
        Some(v) => v,
        None => unreached(),
    };
    let pitch0 = match controller.pitch {
        Some(v) => v,
        None => unreached(),
    };
    let radius_in = match controller.radius {
        Some(v) => v,
        None => unreached(),
    };
    let mut focus1: Vec3Fx = controller.focus;
    let mut radius1: i64 = radius_in;
    match cursor_ray {
        None => {},
        Some(ray) => {
            match nearest_hit {
                Some(hit) => {
                    *pivot_point = hit;
                    if controller.auto_depth {
                        let ct: CameraTransform = match projection {
                            CameraProjection::Orthographic(_) => camera_transform_form_orbit(
                                yaw0,
                                pitch0,
                                radius_in,
                                controller.focus,
                            ),
                            CameraProjection::Perspective(_) => *transform,
                        };
                        let c2p = v3_sub(hit, ct.position);
                        let dist = v3_length(c2p);
                        let dir = v3_normalize_or_zero(c2p);
                        let fwd = transform_forward(&ct);
                        let factor = v3_dot(fwd, dir);
                        let nr = fx_max(fx_mul_clamped(dist, factor), MIN_RADIUS);
                        let nf = clamp3(v3_add(ct.position, v3_scale_clamped(fwd, nr)), FX_MAX);
                        if let CameraProjection::Perspective(_) = projection {
                            radius1 = nr;
                        }
                        focus1 = nf;
                    }
                },
                None => {
                    match projection {
                        CameraProjection::Perspective(_) => {
                            let fwd = transform_forward(transform);
                            let factor = v3_dot(fwd, ray.direction);
                            if factor >= 1 {
                                *pivot_point = clamp3(
                                    v3_add(
                                        transform.position,
                                        v3_scale_clamped(
                                            ray.direction,
                                            fx_div_clamped(radius_in, factor),
                                        ),
                                    ),
                                    PIVOT_LIMIT,
                                );
                            }
                        },
                        CameraProjection::Orthographic(op) => {
                            let span = (((op.far as u64) - (op.near as u64)) / 2) as i64;
                            *pivot_point = clamp3(
                                v3_add(ray.origin, v3_scale_clamped(ray.direction, span)),
                                PIVOT_LIMIT,
                            );
                        },
                    }
                },
            }
        },
    }
    (focus1, radius1)
}

/// Orbit rotation for one frame; see [`orbit_rotation_spec`].
#[verifier::rlimit(100)]
fn rotation_stage(
    yaw0: i64,
    pitch0: i64,
    radius1: i64,
    focus1: Vec3Fx,
    upside: bool,
    auto_depth: bool,
    sens: i64,
    orbit_delta: Vec2Fx,
    window_size: Option<Vec2Fx>,
    pivot: Vec3Fx,
) -> (r: (i64, i64, Vec3Fx, bool))
    requires
        wf_angle(yaw0 as int),
        wf_angle(pitch0 as int),
        wf_radius(radius1 as int),
        wf_focus(focus1@),
        0 <= sens <= FX_INPUT_MAX,
        bounded2(orbit_delta@, 1_000_000_000_000),
        wf_size(window_size),
        wf_pivot(pivot@),
    ensures
        ({
            let (sy, sp, sf, sm) = orbit_rotation_spec(
                yaw0 as int,
                pitch0 as int,
                radius1 as int,
                focus1@,
                upside,
                auto_depth,
                sens as int,
                orbit_delta@,
                window_size,
                pivot@,
            );
            r.0 as int == sy && r.1 as int == sp && r.2@ == sf && r.3 == sm
        }),
        wf_angle(r.0 as int),
        wf_angle(r.1 as int),
        wf_focus(r.2@),
{
    proof {
        reveal(orbit_rotation_spec);
    }
    let ox = fx_mul_clamped(orbit_delta.x, sens);
    let oy = fx_mul_clamped(orbit_delta.y, sens);
    if ox != 0 || oy != 0 {
        if let Some(w) = window_size {
            let d0 = fx_mul_clamped(fx_div_clamped(ox, w.x), FX_TWO_PI);
            let dy = if upside {
                -d0
            } else {
                d0
            };
            let dp = fx_mul_clamped(fx_div_clamped(oy, w.y), FX_PI);
            let ny = fx_clamp(yaw0 - dy, -FX_MAX, FX_MAX);
            let np = fx_clamp(pitch0 + dp, -FX_MAX, FX_MAX);
            let nf: Vec3Fx = if auto_depth {
                let tmp = camera_transform_form_orbit(yaw0, pitch0, radius1, focus1);
                let v0 = v3_sub(tmp.position, pivot);
                proof {
                    lemma_rot_bounds(v0@, -(yaw0 as int), 6_000_000_000_000);
                }
                let v1 = rot_y(v0, -yaw0);
                proof {
                    lemma_rot_bounds(v1@, pitch0 as int, 12_000_000_000_000);
                }
                let v2 = rot_x(v1, pitch0);
                proof {
                    lemma_rot_bounds(v2@, -(dp as int), 24_000_000_000_000);
                }
                let v3a = rot_x(v2, -dp);
                proof {
                    lemma_rot_bounds(v3a@, -(pitch0 as int), 48_000_000_000_000);
                }
                let v4 = rot_x(v3a, -pitch0);
                proof {
                    lemma_rot_bounds(v4@, yaw0 as int, 96_000_000_000_000);
                }
                let v5 = rot_y(v4, yaw0);
                proof {
                    lemma_rot_bounds(v5@, -(dy as int), 192_000_000_000_000);
                }
                let v6 = rot_y(v5, -dy);
                let tpos = v3_add(pivot, v6);
                let ntf = CameraTransform { position: tpos, yaw: yaw0 - dy, pitch: -(pitch0 + dp) };
                let fwd = transform_forward(&ntf);
                clamp3(v3_add(tpos, v3_scale_clamped(fwd, radius1)), FX_MAX)
            } else {
                focus1
            };
            (ny, np, nf, true)
        } else {
            (yaw0, pitch0, focus1, false)
        }
    } else {
        (yaw0, pitch0, focus1, false)
    }
}

/// Panning for one frame; see [`orbit_pan_spec`].
fn pan_stage(
    focus2: Vec3Fx,
    radius1: i64,
    sens: i64,
    pan_delta: Vec2Fx,
    transform: &CameraTransform,
    projection: &CameraProjection,
    viewport_size: Option<Vec2Fx>,
) -> (r: (Vec3Fx, bool))
    requires
        wf_focus(focus2@),
        wf_radius(radius1 as int),
        0 <= sens <= FX_INPUT_MAX,
        bounded2(pan_delta@, 1_000_000_000_000),
        wf_transform(transform@),
        wf_projection(*projection),
        wf_size(viewport_size),
    ensures
        ({
            let (sf, sm) = orbit_pan_spec(
                focus2@,
                radius1 as int,
                sens as int,
                pan_delta@,
                transform@,
                *projection,
                viewport_size,
            );
            r.0@ == sf && r.1 == sm
        }),
        wf_focus(r.0@),
{
    proof {
        reveal(orbit_pan_spec);
    }
    let px = fx_mul_clamped(pan_delta.x, sens);
    let py = fx_mul_clamped(pan_delta.y, sens);
    if px != 0 || py != 0 {
        if let Some(v) = viewport_size {
            let sx = match projection {
                CameraProjection::Perspective(pp) => fx_div_clamped(
                    fx_mul_clamped(pp.fov, pp.aspect_ratio),
                    v.x,
                ),
                CameraProjection::Orthographic(op) => fx_div_clamped(op.area_width, v.x),
            };
            let sy = match projection {
                CameraProjection::Perspective(pp) => fx_div_clamped(pp.fov, v.y),
                CameraProjection::Orthographic(op) => fx_div_clamped(op.area_height, v.y),
            };
            let mult = match projection {
                CameraProjection::Perspective(_) => radius1,
                CameraProjection::Orthographic(_) => FX_ONE,
            };
            let px2 = fx_mul_clamped(px, sx);
            let py2 = fx_mul_clamped(py, sy);
            let right = transform_right(transform);
            let up = transform_up(transform);
            let tr = v3_add(v3_scale_clamped(right, -px2), v3_scale_clamped(up, py2));
            let tr2 = v3_scale_clamped(tr, mult);
            (clamp3(v3_add(focus2, tr2), FX_MAX), true)
        } else {
            (focus2, false)
        }
    } else {
        (focus2, false)
    }
}

/// Zooming for one frame; see [`orbit_zoom_spec`].
fn zoom_stage(
    focus3: Vec3Fx,
    radius1: i64,
    zoom_to_mouse: bool,
    sens: i64,
    line: i64,
    pixel: i64,
    transform: &CameraTransform,
    projection: &CameraProjection,
    pivot: Vec3Fx,
) -> (r: (Vec3Fx, i64, bool))
    requires
        wf_focus(focus3@),
        wf_radius(radius1 as int),
        0 <= sens <= FX_INPUT_MAX,
        abs_spec(line as int) <= 1_000_000_000_000,
        abs_spec(pixel as int) <= 1_000_000_000_000,
        wf_transform(transform@),
        wf_projection(*projection),
        wf_pivot(pivot@),
    ensures
        ({
            let (sf, sr, sm) = orbit_zoom_spec(
                focus3@,
                radius1 as int,
                zoom_to_mouse,
                sens as int,
                line as int,
                pixel as int,
                transform@,
                *projection,
                pivot@,
            );
            r.0@ == sf && r.1 as int == sr && r.2 == sm
        }),
        wf_focus(r.0@),
        wf_radius(r.1 as int),
{
    proof {
        reveal(orbit_zoom_spec);
    }
    let sl = fx_mul_clamped(line, sens);
    let sp = fx_mul_clamped(pixel, sens);
    if sl + sp != 0 {
        let line_delta = -fx_mul_clamped(fx_mul_clamped(sl, radius1), 200_000);
        let pixel_delta = -fx_mul_clamped(fx_mul_clamped(sp, radius1), 200_000);
        let radius_delta = line_delta + pixel_delta;
        let nr = fx_clamp(radius1 + radius_delta, MIN_RADIUS, FX_MAX);
        let nf: Vec3Fx = if zoom_to_mouse {
            match projection {
                CameraProjection::Perspective(_) => {
                    let c2p = v3_sub(pivot, transform.position);
                    let dir = v3_normalize_or_zero(c2p);
                    let fwd = transform_forward(transform);
                    let factor = v3_dot(fwd, dir);
                    if factor >= 1 {
                        let npos = v3_add(
                            transform.position,
                            v3_scale_clamped(dir, fx_div_clamped(-radius_delta, factor)),
                        );
                        clamp3(v3_add(npos, v3_scale_clamped(fwd, nr)), FX_MAX)
                    } else {
                        focus3
                    }
                },
                CameraProjection::Orthographic(_) => {
                    let f2p = v3_sub(pivot, focus3);
                    proof {
                        lemma_rot_bounds(f2p@, -(transform@.yaw), 5_000_000_000_000);
                    }
                    let l1 = rot_y(f2p, -transform.yaw);
                    proof {
                        lemma_rot_bounds(l1@, -(transform@.pitch), 10_000_000_000_000);
                    }
                    let l2 = rot_x(l1, -transform.pitch);
                    let flat = Vec3Fx { x: l2.x, y: l2.y, z: 0 };
                    proof {
                        lemma_rot_bounds(flat@, transform@.pitch, 20_000_000_000_000);
                    }
                    let w1 = rot_x(flat, transform.pitch);
                    proof {
                        lemma_rot_bounds(w1@, transform@.yaw, 40_000_000_000_000);
                    }
                    let w2 = rot_y(w1, transform.yaw);
                    let k = FX_ONE - fx_div_clamped(nr, radius1);
                    clamp3(v3_add(focus3, v3_scale_clamped(w2, k)), FX_MAX)
                },
            }
        } else {
            focus3
        };
        (nf, nr, true)
    } else {
        (focus3, radius1, false)
    }
}

/// Run one frame of pan/orbit/zoom for the active camera. The host
/// supplies the cursor ray and nearest raycast hit (if any), the
/// current transform and projection, the active window and viewport
/// sizes, the input snapshots and the frame's semantic deltas; the
/// controller and the pivot scratch point are updated in place.
/// Returns whether the camera moved and its transform must be
/// reapplied.
#[verifier::rlimit(100)]
pub fn orbit_camera(
    controller: &mut OrbitCameraController,
    cursor_ray: Option<RayFx>,
    nearest_hit: Option<Vec3Fx>,
    transform: &CameraTransform,
    projection: &CameraProjection,
    window_size: Option<Vec2Fx>,
    viewport_size: Option<Vec2Fx>,
    key_input: &ButtonInput,
    mouse_input: &ButtonInput,
    mouse_key_tracker: &MouseKeyTracker,
    pivot_point: &mut Vec3Fx,
) -> (has_moved: bool)
    requires
        old(controller).wf(),
        old(controller).is_initialized,
        wf_pivot(old(pivot_point)@),
        cursor_ray is Some ==> wf_ray(cursor_ray->0),
        nearest_hit is Some ==> bounded3(nearest_hit->0@, FX_MAX as int),
        wf_transform(transform@),
        wf_projection(*projection),
        wf_size(window_size),
        wf_size(viewport_size),
        wf_tracker(mouse_key_tracker@),
    ensures
        ({
            let (nc, npv, moved) = orbit_camera_spec(
                *old(controller),
                old(pivot_point)@,
                cursor_ray,
                nearest_hit,
                transform@,
                *projection,
                window_size,
                viewport_size,
                mouse_input,
                key_input,
                mouse_key_tracker@,
            );
            *final(controller) == nc && final(pivot_point)@ == npv && has_moved == moved
        }),
        final(controller).wf(),
        final(controller).is_initialized,
        wf_pivot(final(pivot_point)@),
{
    proof {
        reveal(pivot_update_spec);
    }
    let yaw0 = match controller.yaw {
        Some(v) => v,
        None => unreached(),
    };
    let pitch0 = match controller.pitch {
        Some(v) => v,
        None => unreached(),
    };
    let trigger = (controller.auto_depth || controller.zoom_to_mouse_position) && (
    orbit_just_pressed(controller, mouse_input, key_input) || pan_just_pressed(
        controller,
        mouse_input,
        key_input,
    ) || mouse_key_tracker.scroll_line != 0 || mouse_key_tracker.scroll_pixel != 0);
    let (focus1, radius1) = if trigger {
        pivot_stage(controller, pivot_point, cursor_ray, nearest_hit, transform, projection)
    } else {
        let f = controller.focus;
        let r = match controller.radius {
            Some(v) => v,
            None => unreached(),
        };
        (f, r)
    };
    let upside = if mouse_key_tracker.orbit_button_changed {
        cos_fx(transform.pitch) <= 0
    } else {
        controller.is_upside_down
    };
    let (yaw2, pitch2, focus2, m_rot) = rotation_stage(
        yaw0,
        pitch0,
        radius1,
        focus1,
        upside,
        controller.auto_depth,
        controller.orbit_sensitivity,
        mouse_key_tracker.orbit,
        window_size,
        *pivot_point,
    );
    let (focus3, m_pan) = pan_stage(
        focus2,
        radius1,
        controller.pan_sensitivity,
        mouse_key_tracker.pan,
        transform,
        projection,
        viewport_size,
    );
    let (focus4, radius4, m_zoom) = zoom_stage(
        focus3,
        radius1,
        controller.zoom_to_mouse_position,
        controller.zoom_sensitivity,
        mouse_key_tracker.scroll_line,
        mouse_key_tracker.scroll_pixel,
        transform,
        projection,
        *pivot_point,
    );
    controller.focus = focus4;
    controller.radius = Some(radius4);
    controller.yaw = Some(yaw2);
    controller.pitch = Some(pitch2);
    controller.is_upside_down = upside;
    proof {
        let c0 = *old(controller);
        let pv0 = old(pivot_point)@;
        let tk = mouse_key_tracker@;
        let (sf1, sr1, spv1) = if pivot_trigger_spec(c0, mouse_input, key_input, tk) {
            pivot_update_spec(c0, pv0, cursor_ray, nearest_hit, transform@, *projection)
        } else {
            (c0.focus@, c0.radius->0 as int, pv0)
        };
        assert(focus1@ == sf1 && radius1 as int == sr1 && pivot_point@ == spv1);
        let supside = if tk.orbit_button_changed {
            cos_fx_spec(transform@.pitch) <= 0
        } else {
            c0.is_upside_down
        };
        assert(upside == supside);
        let (sy2, sp2, sf2, sm_rot) = orbit_rotation_spec(
            c0.yaw->0 as int,
            c0.pitch->0 as int,
            sr1,
            sf1,
            supside,
            c0.auto_depth,
            c0.orbit_sensitivity as int,
            tk.orbit,
            window_size,
            spv1,
        );
        assert(yaw2 as int == sy2 && pitch2 as int == sp2 && focus2@ == sf2 && m_rot == sm_rot);
        let (sf3, sm_pan) = orbit_pan_spec(
            sf2,
            sr1,
            c0.pan_sensitivity as int,
            tk.pan,
            transform@,
            *projection,
            viewport_size,
        );
        assert(focus3@ == sf3 && m_pan == sm_pan);
        let (sf4, sr4, sm_zoom) = orbit_zoom_spec(
            sf3,
            sr1,
            c0.zoom_to_mouse_position,
            c0.zoom_sensitivity as int,
            tk.scroll_line,
            tk.scroll_pixel,
            transform@,
            *projection,
            spv1,
        );
        assert(focus4@ == sf4 && radius4 as int == sr4 && m_zoom == sm_zoom);
        let (nc, npv, moved) = orbit_camera_spec(
            c0,
            pv0,
            cursor_ray,
            nearest_hit,
            transform@,
            *projection,
            window_size,
            viewport_size,
            mouse_input,
            key_input,
            tk,
        );
        assert(crate::linalg::vec_of_v3(sf4) == focus4);
        assert(controller.focus == nc.focus);
        assert(controller.radius == nc.radius);
        assert(controller.yaw == nc.yaw);
        assert(controller.pitch == nc.pitch);
        assert(controller.is_upside_down == nc.is_upside_down);
        assert(*controller == nc);
        assert(pivot_point@ == npv);
    }
    m_rot || m_pan || m_zoom
}

/// One frame of the orbit controller for one camera: lazy
/// initialization, then — while enabled and owning input — the
/// pan/orbit/zoom update, and finally the transform reapplication when
/// the camera moved or an update was forced (which clears the force
/// flag).
pub open spec fn orbit_controller_frame_spec(
    c: OrbitCameraController,
    t: TransformV,
    proj: CameraProjection,
    pivot: V3,
    is_active: bool,
    cursor_ray: Option<RayFx>,
    nearest_hit: Option<Vec3Fx>,
    ws: Option<Vec2Fx>,
    vp: Option<Vec2Fx>,
    mouse: &ButtonInput,
    keys: &ButtonInput,
    tk: TrackerV,
) -> (OrbitCameraController, TransformV, CameraProjection, V3) {
    let (c1, t1, p1) = initialize_spec(c, t, proj);
    let (c2, pv2) = if c1.is_enabled && is_active {
        let (cc, pp, _moved) = orbit_camera_spec(
            c1,
            pivot,
            cursor_ray,
            nearest_hit,
            t1,
            p1,
            ws,
            vp,
            mouse,
            keys,
            tk,
        );
        (cc, pp)
    } else {
        (c1, pivot)
    };
    let moved = if c1.is_enabled && is_active {
        orbit_camera_spec(c1, pivot, cursor_ray, nearest_hit, t1, p1, ws, vp, mouse, keys, tk).2
    } else {
        false
    };
    if moved || c2.force_update {
        let (t2, p2) = update_orbit_transform_spec(
            c2.yaw->0 as int,
            c2.pitch->0 as int,
            c2.radius->0 as int,
            c2.focus@,
            p1,
        );
        (OrbitCameraController { force_update: false, ..c2 }, t2, p2, pv2)
    } else {
        (c2, t1, p1, pv2)
    }
}

/// Run one frame of the orbit controller for one camera. `is_active`
/// says whether the arbiter's active camera is this one; the rest of
/// the inputs are as in [`orbit_camera`]. The controller, transform,
/// projection and pivot are updated in place.
#[verifier::rlimit(100)]
pub fn orbit_camera_controller_system(
    controller: &mut OrbitCameraController,
    transform: &mut CameraTransform,
    projection: &mut CameraProjection,
    pivot_point: &mut Vec3Fx,
    is_active: bool,
    cursor_ray: Option<RayFx>,
    nearest_hit: Option<Vec3Fx>,
    window_size: Option<Vec2Fx>,
    viewport_size: Option<Vec2Fx>,
    key_input: &ButtonInput,
    mouse_input: &ButtonInput,
    mouse_key_tracker: &MouseKeyTracker,
)
    requires
        old(controller).wf(),
        wf_transform(old(transform)@),
        wf_projection(*old(projection)),
        wf_pivot(old(pivot_point)@),
        cursor_ray is Some ==> wf_ray(cursor_ray->0),
        nearest_hit is Some ==> bounded3(nearest_hit->0@, FX_MAX as int),
        wf_size(window_size),
        wf_size(viewport_size),
        wf_tracker(mouse_key_tracker@),
    ensures
        (*final(controller), final(transform)@, *final(projection), final(pivot_point)@)
            == orbit_controller_frame_spec(
            *old(controller),
            old(transform)@,
            *old(projection),
            old(pivot_point)@,
            is_active,
            cursor_ray,
            nearest_hit,
            window_size,
            viewport_size,
            mouse_input,
            key_input,
            mouse_key_tracker@,
        ),
        final(controller).wf(),
        final(controller).is_initialized,
        wf_transform(final(transform)@),
        wf_projection(*final(projection)),
        wf_pivot(final(pivot_point)@),
{
    controller.initialize_if_necessary(transform, projection);
    let mut has_moved: bool = false;
    if controller.is_enabled && is_active {
        has_moved = orbit_camera(
            controller,
            cursor_ray,
            nearest_hit,
            transform,
            projection,
            window_size,
            viewport_size,
            key_input,
            mouse_input,
            mouse_key_tracker,
            pivot_point,
        );
    }
    if has_moved || controller.force_update {
        let yaw = match controller.yaw {
            Some(v) => v,
            None => unreached(),
        };
        let pitch = match controller.pitch {
            Some(v) => v,
            None => unreached(),
        };
        let radius = match controller.radius {
            Some(v) => v,
            None => unreached(),
        };
        update_orbit_transform(yaw, pitch, radius, controller.focus, transform, projection);
        controller.force_update = false;
    }
}

/// The radius after a sequence of scroll events, each applied through
/// the zoom rule with the same configuration.
pub open spec fn radius_after_scrolls(
    radius: int,
    scrolls: Seq<(int, int)>,
    zoom_to_mouse: bool,
    sens: int,
    focus: V3,
    t: TransformV,
    proj: CameraProjection,
    pivot: V3,
) -> int
    decreases scrolls.len(),
{
    if scrolls.len() == 0 {
        radius
    } else {
        let prev = radius_after_scrolls(
            radius,
            scrolls.drop_last(),
            zoom_to_mouse,
            sens,
            focus,
            t,
            proj,
            pivot,
        );
        orbit_zoom_spec(
            focus,
            prev,
            zoom_to_mouse,
            sens,
            scrolls.last().0,
            scrolls.last().1,
            t,
            proj,
            pivot,
        ).1
    }
}

/// Law (radius floor): no sequence of scroll events — zooming in
/// included — drives the orbit radius below the floor, nor past the
/// coordinate range.
pub proof fn lemma_radius_floor(
    radius: int,
    scrolls: Seq<(int, int)>,
    zoom_to_mouse: bool,
    sens: int,
    focus: V3,
    t: TransformV,
    proj: CameraProjection,
    pivot: V3,
)
    requires
        MIN_RADIUS <= radius <= FX_MAX,
    ensures
        MIN_RADIUS <= radius_after_scrolls(
            radius,
            scrolls,
            zoom_to_mouse,
            sens,
            focus,
            t,
            proj,
            pivot,
        ) <= FX_MAX,
    decreases scrolls.len(),
{
    reveal(orbit_zoom_spec);
    if scrolls.len() > 0 {
        lemma_radius_floor(
            radius,
            scrolls.drop_last(),
            zoom_to_mouse,
            sens,
            focus,
            t,
            proj,
            pivot,
        );
    }
}

} // verus!
