//! Camera controllers and tools for editor-like 3D views.
//!
//! The library converts per-frame input snapshots into camera transforms
//! under two mutually exclusive control modes:
//! - Pan/orbit/zoom camera controls with "zoom to mouse position" and
//!   "auto depth".
//! - Fly camera controls with zooming (back, forward), panning (left,
//!   right, down, up) and speed controls.
//! - Set viewpoint: view from left, right, front, back, top and bottom.
//! - Frame entities into view, given their bounding boxes.
//! - Switch between orthographic and perspective camera projection.
//!
//! The host engine owns windows, input devices, rendering and raycasting;
//! it hands the library plain fixed-point snapshots of that state each
//! frame (see [`fx`]) and applies the transforms and cursor commands the
//! library hands back.
//!
//! This root module holds the active-camera arbitration — deciding which
//! camera among many viewports and windows receives input — the cursor
//! grab/wrap/center decisions taken during drags, and the state machine
//! that switches a camera between orbit and fly control and between
//! perspective and orthographic projection.

use vstd::prelude::*;

pub mod egui;
pub mod fly;
pub mod frame;
pub mod fx;
pub mod input;
pub mod linalg;
pub mod orbit;
pub mod trig;
pub mod utils;
pub mod viewpoints;

use crate::egui::EguiWantsFocus;
use crate::fly::FlyCameraController;
use crate::fx::FX_MAX;
use crate::fx::fx_half;
use crate::fx::half_spec;
use crate::input::ButtonInput;
use crate::input::orbit_just_pressed;
use crate::input::orbit_just_pressed_spec;
use crate::input::orbit_just_released;
use crate::input::orbit_just_released_spec;
use crate::input::orbit_pressed;
use crate::input::orbit_pressed_spec;
use crate::input::pan_just_pressed;
use crate::input::pan_just_pressed_spec;
use crate::input::pan_just_released;
use crate::input::pan_just_released_spec;
use crate::input::pan_pressed;
use crate::input::pan_pressed_spec;
use crate::input::rotate_just_pressed;
use crate::input::rotate_just_pressed_spec;
use crate::input::rotate_just_released;
use crate::input::rotate_just_released_spec;
use crate::input::rotate_pressed;
use crate::input::rotate_pressed_spec;
use crate::linalg::RectFx;
use crate::linalg::V2;
use crate::linalg::Vec2Fx;
use crate::linalg::clamp3_spec;
use crate::linalg::v3_add_spec;
use crate::linalg::v3_scale_clamped_spec;
use crate::linalg::vec_of_v3;
use crate::orbit::OrbitCameraController;
use crate::utils::CameraProjection;
use crate::utils::CameraTransform;
use crate::utils::TransformV;
use crate::utils::transform_forward;
use crate::utils::transform_forward_spec;
use crate::utils::update_orbit_transform;
use crate::utils::update_orbit_transform_spec;
use crate::utils::wf_projection;
use crate::utils::wf_transform;

verus! {

/// Request to switch a camera between perspective and orthographic
/// projection.
#[derive(Debug, Clone, Copy, PartialEq, Eq, Structural)]
pub struct SwitchProjection {
    /// The camera whose projection is toggled.
    pub camera_entity: u64,
}

/// Request to enable a camera's orbit controller and disable its fly
/// controller.
#[derive(Debug, Clone, Copy, PartialEq, Eq, Structural)]
pub struct SwitchToOrbitController {
    /// The camera switched to pan/orbit/zoom control.
    pub camera_entity: u64,
}

/// Request to enable a camera's fly controller and disable its orbit
/// controller.
#[derive(Debug, Clone, Copy, PartialEq, Eq, Structural)]
pub struct SwitchToFlyController {
    /// The camera switched to fly control.
    pub camera_entity: u64,
}

/// The stages of one frame, in the order the host must run them.
#[derive(Debug, Clone, Copy, PartialEq, Eq, Structural, Hash)]
pub enum BlendyCamerasSystemSet {
    /// Ask the GUI layer whether it wants input focus.
    CheckEguiWantsFocus,
    /// Reduce raw input and arbitrate the active camera.
    ProcessInput,
    /// Handle mode, projection, viewpoint and framing requests.
    HandleEvents,
    /// Run the orbit and fly controllers.
    Controllers,
}

/// Which camera receives input, with the sizes used to scale mouse
/// motion. Written by the arbiter once per frame unless the host has
/// taken it over (`manual`); sticky across frames without new input.
#[derive(Debug, Clone, Copy, Default)]
pub struct ActiveCameraData {
    /// The camera that input moves.
    pub entity: Option<u64>,
    /// Size of that camera's viewport, scaling pan motion.
    pub viewport_size: Option<Vec2Fx>,
    /// Size of that camera's window, scaling orbit motion.
    pub window_size: Option<Vec2Fx>,
    /// While set, the arbiter never overwrites this data.
    pub manual: bool,
    /// The window holding the viewport, for cursor control.
    pub window_entity: Option<u64>,
}

/// A window as the arbiter sees it: its identity, logical size and
/// cursor position (when the cursor is inside it).
#[derive(Debug, Clone, Copy, PartialEq, Eq, Structural)]
pub struct WindowSnapshot {
    pub entity: u64,
    pub size: Vec2Fx,
    pub cursor_position: Option<Vec2Fx>,
}

/// The touch points of one frame: how many are down, how many went
/// down this frame, and where the first new one landed.
#[derive(Debug, Clone, Copy, PartialEq, Eq, Structural)]
pub struct TouchState {
    pub total_count: usize,
    pub just_pressed_count: usize,
    pub first_just_pressed_position: Option<Vec2Fx>,
}

impl TouchState {
    /// A frame with no touch input.
    pub fn none() -> (r: TouchState)
        ensures
            r == (TouchState {
                total_count: 0usize,
                just_pressed_count: 0usize,
                first_just_pressed_position: None::<Vec2Fx>,
            }),
    {
        TouchState { total_count: 0, just_pressed_count: 0, first_just_pressed_position: None }
    }
}

/// One camera as the arbiter sees it: identity, render order, resolved
/// render-target window (when it is a window that still exists), its
/// viewport, and its controllers.
#[derive(Debug, Clone)]
pub struct ArbitrationCamera {
    pub entity: u64,
    pub order: i64,
    pub window: Option<WindowSnapshot>,
    pub viewport_rect: Option<RectFx>,
    pub viewport_size: Option<Vec2Fx>,
    pub orbit: Option<OrbitCameraController>,
    pub fly: Option<FlyCameraController>,
}

/// A point strictly inside a rectangle (its edges count as outside, as
/// for viewport hit-testing).
pub open spec fn cursor_in_rect_spec(p: V2, r: RectFx) -> bool {
    r.min@.x < p.x < r.max@.x && r.min@.y < p.y < r.max@.y
}

/// The window to act on when the pointer is inside this camera's
/// viewport: the camera's render-target window, provided the cursor —
/// or, when asked, the first new touch — lies strictly inside the
/// viewport rectangle.
pub open spec fn camera_window_under_cursor_spec(
    cam: ArbitrationCamera,
    touches: Option<TouchState>,
) -> Option<WindowSnapshot> {
    match cam.window {
        None => None,
        Some(w) => {
            let input_position = if w.cursor_position is Some {
                w.cursor_position
            } else {
                match touches {
                    Some(t) => t.first_just_pressed_position,
                    None => None,
                }
            };
            match (input_position, cam.viewport_rect) {
                (Some(p), Some(r)) => if cursor_in_rect_spec(p@, r) {
                    Some(w)
                } else {
                    None
                },
                _ => None,
            }
        },
    }
}

/// Resolve the window to act on when the pointer is inside this
/// camera's viewport.
pub fn get_window_if_cursor_in_camera_viewport(
    cam: &ArbitrationCamera,
    touches: Option<&TouchState>,
) -> (r: Option<WindowSnapshot>)
    ensures
        r == camera_window_under_cursor_spec(
            *cam,
            match touches {
                Some(t) => Some(*t),
                None => None,
            },
        ),
{
    match cam.window {
        None => None,
        Some(w) => {
            let input_position: Option<Vec2Fx> = match w.cursor_position {
                Some(p) => Some(p),
                None => match touches {
                    Some(t) => t.first_just_pressed_position,
                    None => None,
                },
            };
            match (input_position, cam.viewport_rect) {
                (Some(p), Some(r)) => {
                    if r.min.x < p.x && p.x < r.max.x && r.min.y < p.y && p.y < r.max.y {
                        Some(w)
                    } else {
                        None
                    }
                },
                _ => None,
            }
        },
    }
}

/// Whether a camera's viewport contains the cursor (no touch input
/// considered).
pub open spec fn cursor_candidate_spec(cam: ArbitrationCamera) -> bool {
    camera_window_under_cursor_spec(cam, None) is Some
}

/// The running winner of the camera-under-cursor scan: cameras are
/// visited in order, and one whose viewport contains the cursor takes
/// over whenever its render order reaches the running maximum (which
/// starts at zero), so later cameras win exact ties.
pub open spec fn cursor_camera_fold_spec(cams: Seq<ArbitrationCamera>) -> (Option<u64>, int)
    decreases cams.len(),
{
    if cams.len() == 0 {
        (None, 0)
    } else {
        let (acc, m) = cursor_camera_fold_spec(cams.drop_last());
        let c = cams.last();
        if cursor_candidate_spec(c) && c.order >= m {
            (Some(c.entity), c.order as int)
        } else {
            (acc, m)
        }
    }
}

/// The camera that renders to the viewport under the mouse cursor with
/// the highest render order, later cameras winning ties.
pub fn get_camera_entity_from_cursor_position(cameras: &Vec<ArbitrationCamera>) -> (r: Option<
    u64,
>)
    ensures
        r == cursor_camera_fold_spec(cameras@).0,
{
    let mut camera_entity: Option<u64> = None;
    let mut max_cam_order: i64 = 0;
    let mut i: usize = 0;
    while i < cameras.len()
        invariant
            0 <= i <= cameras.len(),
            (camera_entity, max_cam_order as int) == cursor_camera_fold_spec(
                cameras@.take(i as int),
            ),
        decreases cameras.len() - i,
    {
        proof {
            assert(cameras@.take(i + 1).drop_last() =~= cameras@.take(i as int));
            assert(cameras@.take(i + 1).last() == cameras@[i as int]);
        }
        let hit = get_window_if_cursor_in_camera_viewport(&cameras[i], None);
        if hit.is_some() {
            if cameras[i].order >= max_cam_order {
                camera_entity = Some(cameras[i].entity);
                max_cam_order = cameras[i].order;
            }
        }
        i = i + 1;
    }
    proof {
        assert(cameras@.take(cameras@.len() as int) =~= cameras@);
    }
    camera_entity
}

/// Law (arbitration tie-break): the camera-under-cursor scan is a
/// function of its input — repeated runs on the same cameras give the
/// same winner — and the winner is the last candidate whose render
/// order equals the maximum candidate order; a winner exists exactly
/// when some candidate has nonnegative order.
pub proof fn lemma_cursor_camera_tie_break(cams: Seq<ArbitrationCamera>)
    ensures
        ({
            let (winner, m) = cursor_camera_fold_spec(cams);
            &&& m >= 0
            &&& forall|j: int|
                0 <= j < cams.len() && #[trigger] cursor_candidate_spec(cams[j]) ==> cams[j].order
                    <= m
            &&& winner is None ==> m == 0
            &&& (winner is Some <==> exists|j: int|
                0 <= j < cams.len() && #[trigger] cursor_candidate_spec(cams[j]) && cams[j].order
                    >= 0)
            &&& winner is Some ==> exists|i: int|
                {
                    &&& 0 <= i < cams.len()
                    &&& #[trigger] cursor_candidate_spec(cams[i])
                    &&& winner == Some(cams[i].entity)
                    &&& cams[i].order == m
                    &&& forall|j: int|
                        i < j < cams.len() && #[trigger] cursor_candidate_spec(cams[j])
                            ==> cams[j].order < m
                }
        }),
    decreases cams.len(),
{
    if cams.len() > 0 {
        lemma_cursor_camera_tie_break(cams.drop_last());
        let (w1, m1) = cursor_camera_fold_spec(cams.drop_last());
        let (winner, m) = cursor_camera_fold_spec(cams);
        let c = cams.last();
        let n = cams.len() - 1;
        assert(forall|j: int| 0 <= j < n ==> cams.drop_last()[j] == cams[j]);
        if cursor_candidate_spec(c) && c.order >= m1 {
            assert(winner == Some(c.entity) && m == c.order);
            assert(cursor_candidate_spec(cams[n]) && cams[n].order >= 0);
        } else {
            if cursor_candidate_spec(c) && c.order >= 0 {
                assert(c.order < m1);
                assert(w1 is Some) by {
                    if w1 is None {
                        assert(m1 == 0);
                    }
                }
            }
            if winner is Some {
                let i = choose|i: int|
                    {
                        &&& 0 <= i < n
                        &&& #[trigger] cursor_candidate_spec(cams.drop_last()[i])
                        &&& w1 == Some(cams.drop_last()[i].entity)
                        &&& cams.drop_last()[i].order == m1
                        &&& forall|j: int|
                            i < j < n && #[trigger] cursor_candidate_spec(cams.drop_last()[j])
                                ==> cams.drop_last()[j].order < m1
                    };
                assert(cursor_candidate_spec(cams[i]) && winner == Some(cams[i].entity)
                    && cams[i].order == m);
                assert(forall|j: int|
                    i < j < cams.len() && #[trigger] cursor_candidate_spec(cams[j])
                        ==> cams[j].order < m);
            }
        }
    }
}

/// An activation input landed on this camera this frame: one of its
/// enabled controllers' drag buttons went down, a scroll occurred, or
/// the whole touch set is new. Cameras without any controller never
/// activate.
pub open spec fn camera_activation_spec(
    cam: ArbitrationCamera,
    mouse: &ButtonInput,
    keys: &ButtonInput,
    scroll_happened: bool,
    touches: TouchState,
) -> bool {
    if cam.orbit is None && cam.fly is None {
        false
    } else {
        let drag = (cam.orbit is Some && cam.orbit->0.is_enabled && (orbit_just_pressed_spec(
            cam.orbit->0,
            mouse,
            keys,
        ) || pan_just_pressed_spec(cam.orbit->0, mouse, keys))) || (cam.fly is Some
            && cam.fly->0.is_enabled && rotate_just_pressed_spec(cam.fly->0, mouse, keys));
        drag || scroll_happened || (touches.just_pressed_count > 0 && touches.just_pressed_count
            == touches.total_count)
    }
}

/// An empty active-camera record, the arbiter's starting point each
/// frame.
pub open spec fn active_camera_cleared_spec() -> ActiveCameraData {
    ActiveCameraData {
        entity: None,
        viewport_size: None,
        window_size: None,
        manual: false,
        window_entity: None,
    }
}

/// The arbiter's scan: cameras are visited in order; every activation
/// raises the input flag, and — unless the GUI suppressed input this
/// frame — an activated camera whose viewport holds the pointer takes
/// the record over whenever its render order reaches the running
/// maximum, so later cameras win exact ties.
pub open spec fn arbiter_fold_spec(
    cams: Seq<ArbitrationCamera>,
    mouse: &ButtonInput,
    keys: &ButtonInput,
    scroll_happened: bool,
    touches: TouchState,
    suppressed: bool,
) -> (ActiveCameraData, int, bool)
    decreases cams.len(),
{
    if cams.len() == 0 {
        (active_camera_cleared_spec(), 0, false)
    } else {
        let (res, m, has) = arbiter_fold_spec(
            cams.drop_last(),
            mouse,
            keys,
            scroll_happened,
            touches,
            suppressed,
        );
        let c = cams.last();
        if camera_activation_spec(c, mouse, keys, scroll_happened, touches) {
            if !suppressed {
                match camera_window_under_cursor_spec(c, Some(touches)) {
                    Some(w) => if c.order >= m {
                        (
                            ActiveCameraData {
                                entity: Some(c.entity),
                                viewport_size: c.viewport_size,
                                window_size: Some(w.size),
                                manual: false,
                                window_entity: Some(w.entity),
                            },
                            c.order as int,
                            true,
                        )
                    } else {
                        (res, m, true)
                    },
                    None => (res, m, true),
                }
            } else {
                (res, m, true)
            }
        } else {
            (res, m, has)
        }
    }
}

/// The active-camera record after one arbitration pass: untouched while
/// the host holds it (`manual`) or while no activation occurred this
/// frame (sticky); otherwise replaced by the scan's winner — or cleared,
/// when input arrived but no camera claimed it.
pub open spec fn active_viewport_data_spec(
    active: ActiveCameraData,
    cams: Seq<ArbitrationCamera>,
    mouse: &ButtonInput,
    keys: &ButtonInput,
    scroll_happened: bool,
    touches: TouchState,
    egui_wants_focus: EguiWantsFocus,
) -> ActiveCameraData {
    if active.manual {
        active
    } else {
        let (res, m, has) = arbiter_fold_spec(
            cams,
            mouse,
            keys,
            scroll_happened,
            touches,
            egui_wants_focus.spec_suppresses_input(),
        );
        if has {
            res
        } else {
            active
        }
    }
}

/// Gather the active-viewport data: decide, from this frame's
/// activations, which camera owns input, and record its viewport and
/// window sizes for motion scaling.
pub fn active_viewport_data_system(
    active_cam: &mut ActiveCameraData,
    mouse_input: &ButtonInput,
    key_input: &ButtonInput,
    scroll_happened: bool,
    touches: &TouchState,
    cameras: &Vec<ArbitrationCamera>,
    egui_wants_focus: &EguiWantsFocus,
)
    ensures
        *final(active_cam) == active_viewport_data_spec(
            *old(active_cam),
            cameras@,
            mouse_input,
            key_input,
            scroll_happened,
            *touches,
            *egui_wants_focus,
        ),
        old(active_cam).manual ==> *final(active_cam) == *old(active_cam),
{
    if active_cam.manual {
        return ;
    }
    let suppressed = egui_wants_focus.suppresses_input();
    let mut new_resource = ActiveCameraData {
        entity: None,
        viewport_size: None,
        window_size: None,
        manual: false,
        window_entity: None,
    };
    let mut max_cam_order: i64 = 0;
    let mut has_input: bool = false;
    let mut i: usize = 0;
    while i < cameras.len()
        invariant
            0 <= i <= cameras.len(),
            ({
                let (res, m, has) = arbiter_fold_spec(
                    cameras@.take(i as int),
                    mouse_input,
                    key_input,
                    scroll_happened,
                    *touches,
                    suppressed,
                );
                new_resource == res && max_cam_order as int == m && has_input == has
            }),
        decreases cameras.len() - i,
    {
        proof {
            assert(cameras@.take(i + 1).drop_last() =~= cameras@.take(i as int));
            assert(cameras@.take(i + 1).last() == cameras@[i as int]);
        }
        let cam = &cameras[i];
        let has_orbit = cam.orbit.is_some();
        let has_fly = cam.fly.is_some();
        if has_orbit || has_fly {
            let mut drag_just_activated = false;
            if let Some(orbit_controller) = &cam.orbit {
                if orbit_controller.is_enabled {
                    drag_just_activated = drag_just_activated || orbit_just_pressed(
                        orbit_controller,
                        mouse_input,
                        key_input,
                    ) || pan_just_pressed(orbit_controller, mouse_input, key_input);
                }
            }
            if let Some(fly_controller) = &cam.fly {
                if fly_controller.is_enabled {
                    drag_just_activated = drag_just_activated || rotate_just_pressed(
                        fly_controller,
                        mouse_input,
                        key_input,
                    );
                }
            }
            let input_just_activated = drag_just_activated || scroll_happened || (
            touches.just_pressed_count > 0 && touches.just_pressed_count == touches.total_count);
            if input_just_activated {
                has_input = true;
                if !suppressed {
                    if let Some(w) = get_window_if_cursor_in_camera_viewport(cam, Some(touches)) {
                        if cam.order >= max_cam_order {
                            new_resource = ActiveCameraData {
                                entity: Some(cam.entity),
                                viewport_size: cam.viewport_size,
                                window_size: Some(w.size),
                                manual: false,
                                window_entity: Some(w.entity),
                            };
                            max_cam_order = cam.order;
                        }
                    }
                }
            }
        }
        i = i + 1;
    }
    proof {
        assert(cameras@.take(cameras@.len() as int) =~= cameras@);
    }
    if has_input {
        *active_cam = new_resource;
    }
}

/// A camera the arbiter's scan can hand the input to: it activated
/// this frame, input was not suppressed, and the pointer lies in its
/// viewport.
pub open spec fn arbiter_candidate_spec(
    cam: ArbitrationCamera,
    mouse: &ButtonInput,
    keys: &ButtonInput,
    scroll_happened: bool,
    touches: TouchState,
    suppressed: bool,
) -> bool {
    camera_activation_spec(cam, mouse, keys, scroll_happened, touches) && !suppressed
        && camera_window_under_cursor_spec(cam, Some(touches)) is Some
}

/// Law (arbitration tie-break, arbiter form): the arbiter is a function
/// of its input — repeated runs on the same frame give the same
/// record — and when it hands input to a camera, that camera is the
/// last candidate whose render order equals the maximum candidate
/// order. The input flag rises exactly when some camera activated.
pub proof fn lemma_arbiter_tie_break(
    cams: Seq<ArbitrationCamera>,
    mouse: &ButtonInput,
    keys: &ButtonInput,
    scroll_happened: bool,
    touches: TouchState,
    suppressed: bool,
)
    ensures
        ({
            let (res, m, has) = arbiter_fold_spec(
                cams,
                mouse,
                keys,
                scroll_happened,
                touches,
                suppressed,
            );
            &&& m >= 0
            &&& forall|j: int|
                0 <= j < cams.len() && #[trigger] arbiter_candidate_spec(
                    cams[j],
                    mouse,
                    keys,
                    scroll_happened,
                    touches,
                    suppressed,
                ) ==> cams[j].order <= m
            &&& res.entity is None ==> m == 0
            &&& (has <==> exists|j: int|
                0 <= j < cams.len() && #[trigger] camera_activation_spec(
                    cams[j],
                    mouse,
                    keys,
                    scroll_happened,
                    touches,
                ))
            &&& res.entity is Some ==> exists|i: int|
                {
                    &&& 0 <= i < cams.len()
                    &&& #[trigger] arbiter_candidate_spec(
                        cams[i],
                        mouse,
                        keys,
                        scroll_happened,
                        touches,
                        suppressed,
                    )
                    &&& res.entity == Some(cams[i].entity)
                    &&& cams[i].order == m
                    &&& forall|j: int|
                        i < j < cams.len() && #[trigger] arbiter_candidate_spec(
                            cams[j],
                            mouse,
                            keys,
                            scroll_happened,
                            touches,
                            suppressed,
                        ) ==> cams[j].order < m
                }
        }),
    decreases cams.len(),
{
    if cams.len() > 0 {
        lemma_arbiter_tie_break(cams.drop_last(), mouse, keys, scroll_happened, touches, suppressed);
        let front = cams.drop_last();
        let (r1, m1, h1) = arbiter_fold_spec(front, mouse, keys, scroll_happened, touches, suppressed);
        let (res, m, has) = arbiter_fold_spec(cams, mouse, keys, scroll_happened, touches, suppressed);
        let c = cams.last();
        let n = cams.len() - 1;
        assert(forall|j: int| 0 <= j < n ==> front[j] == cams[j]);
        let won = arbiter_candidate_spec(c, mouse, keys, scroll_happened, touches, suppressed)
            && c.order >= m1;
        if won {
            assert(res.entity == Some(c.entity) && m == c.order);
            assert(arbiter_candidate_spec(cams[n], mouse, keys, scroll_happened, touches, suppressed));
        } else {
            if arbiter_candidate_spec(c, mouse, keys, scroll_happened, touches, suppressed) {
                assert(c.order < m1);
            }
            if res.entity is Some {
                let i = choose|i: int|
                    {
                        &&& 0 <= i < n
                        &&& #[trigger] arbiter_candidate_spec(
                            front[i],
                            mouse,
                            keys,
                            scroll_happened,
                            touches,
                            suppressed,
                        )
                        &&& r1.entity == Some(front[i].entity)
                        &&& front[i].order == m1
                        &&& forall|j: int|
                            i < j < n && #[trigger] arbiter_candidate_spec(
                                front[j],
                                mouse,
                                keys,
                                scroll_happened,
                                touches,
                                suppressed,
                            ) ==> front[j].order < m1
                    };
                assert(arbiter_candidate_spec(cams[i], mouse, keys, scroll_happened, touches, suppressed)
                    && res.entity == Some(cams[i].entity) && cams[i].order == m);
                assert(forall|j: int|
                    i < j < cams.len() && #[trigger] arbiter_candidate_spec(
                        cams[j],
                        mouse,
                        keys,
                        scroll_happened,
                        touches,
                        suppressed,
                    ) ==> cams[j].order < m);
            }
        }
        if camera_activation_spec(c, mouse, keys, scroll_happened, touches) {
            assert(camera_activation_spec(cams[n], mouse, keys, scroll_happened, touches));
        }
    }
}

/// A cursor grab request for the platform layer.
#[derive(Debug, Clone, Copy, PartialEq, Eq, Structural)]
pub enum CursorGrab {
    /// Lock the cursor to the window.
    Locked,
    /// Release any cursor lock.
    Released,
}

/// The cursor side effects of one frame, for the host to perform: an
/// optional grab-mode change, an extra platform-level lock request
/// (issued when centering begins, for platforms where the window-level
/// lock alone does not hold), and an optional forced cursor position.
#[derive(Debug, Clone, Copy)]
pub struct CursorActions {
    pub grab: Option<CursorGrab>,
    pub winit_lock: bool,
    pub set_position: Option<Vec2Fx>,
}

/// The center of a rectangle.
pub open spec fn rect_center_spec(r: RectFx) -> Vec2Fx {
    Vec2Fx {
        x: half_spec(r.min@.x + r.max@.x) as i64,
        y: half_spec(r.min@.y + r.max@.y) as i64,
    }
}

/// A point inside a rectangle, edges included (as for the drag-start
/// test).
pub open spec fn rect_contains_closed_spec(p: V2, r: RectFx) -> bool {
    r.min@.x <= p.x <= r.max@.x && r.min@.y <= p.y <= r.max@.y
}

/// A cursor position reflected across whichever viewport edge it
/// reached: at or past an edge it teleports to the opposite edge.
pub open spec fn wrap_reflect_spec(p: Vec2Fx, r: RectFx) -> Vec2Fx {
    let x = if p.x <= r.min.x {
        r.max.x
    } else if p.x >= r.max.x {
        r.min.x
    } else {
        p.x
    };
    let y = if p.y <= r.min.y {
        r.max.y
    } else if p.y >= r.max.y {
        r.min.y
    } else {
        p.y
    };
    Vec2Fx { x, y }
}

/// The cursor decisions of one frame for the active camera: when a drag
/// begins, the start position is recorded and — for a wrapping orbit
/// drag or a centering fly drag — a cursor lock is requested, centering
/// also repositioning the cursor; when the drag ends, the record is
/// cleared and the lock released. While a drag that started inside the
/// viewport is held, a wrapping cursor reflects across the edges every
/// frame and a centering cursor is forced back to the viewport center.
pub open spec fn wrap_grab_center_spec(
    orbit: Option<OrbitCameraController>,
    fly: Option<FlyCameraController>,
    mouse: &ButtonInput,
    keys: &ButtonInput,
    rect: RectFx,
    cursor_position: Option<Vec2Fx>,
    start: Option<Vec2Fx>,
) -> (Option<Vec2Fx>, CursorActions) {
    if orbit is None && fly is None {
        (start, CursorActions { grab: None, winit_lock: false, set_position: None })
    } else {
        let orbit_on = orbit is Some && orbit->0.is_enabled;
        let fly_on = fly is Some && fly->0.is_enabled;
        let drag_just_activated = (orbit_on && (orbit_just_pressed_spec(orbit->0, mouse, keys)
            || pan_just_pressed_spec(orbit->0, mouse, keys))) || (fly_on
            && rotate_just_pressed_spec(fly->0, mouse, keys));
        let drag_just_released = (orbit_on && (orbit_just_released_spec(orbit->0, mouse, keys)
            || pan_just_released_spec(orbit->0, mouse, keys))) || (fly_on
            && rotate_just_released_spec(fly->0, mouse, keys));
        let wrap_cursor = orbit_on && orbit->0.wrap_cursor && (orbit_pressed_spec(
            orbit->0,
            mouse,
            keys,
        ) || pan_pressed_spec(orbit->0, mouse, keys));
        let center_cursor = fly_on && fly->0.grab_cursor && rotate_pressed_spec(
            fly->0,
            mouse,
            keys,
        );
        let center = rect_center_spec(rect);
        let (start1, grab1, winit1, setpos1): (
            Option<Vec2Fx>,
            Option<CursorGrab>,
            bool,
            Option<Vec2Fx>,
        ) = if drag_just_activated {
            (
                cursor_position,
                if wrap_cursor || center_cursor {
                    Some(CursorGrab::Locked)
                } else {
                    None
                },
                center_cursor,
                if center_cursor {
                    Some(center)
                } else {
                    None
                },
            )
        } else if drag_just_released {
            (None, Some(CursorGrab::Released), false, None)
        } else {
            (start, None, false, None)
        };
        let in_rect = start1 is Some && rect_contains_closed_spec(start1->0@, rect);
        let setpos2 = if in_rect && wrap_cursor {
            match cursor_position {
                Some(p) => Some(wrap_reflect_spec(p, rect)),
                None => Some(center),
            }
        } else {
            setpos1
        };
        let setpos3 = if in_rect && center_cursor {
            Some(center)
        } else {
            setpos2
        };
        (start1, CursorActions { grab: grab1, winit_lock: winit1, set_position: setpos3 })
    }
}

/// Decide the frame's cursor grab, wrap and center side effects for the
/// active camera, updating the recorded drag-start position in place.
/// The host performs the returned actions on the active window.
pub fn wrap_grab_center_cursor_system(
    orbit_controller: Option<&OrbitCameraController>,
    fly_controller: Option<&FlyCameraController>,
    mouse_input: &ButtonInput,
    key_input: &ButtonInput,
    viewport_rect: RectFx,
    cursor_position: Option<Vec2Fx>,
    cursor_start_pos: &mut Option<Vec2Fx>,
) -> (r: CursorActions)
    requires
        crate::linalg::bounded2(viewport_rect.min@, crate::fx::FX_INPUT_MAX as int),
        crate::linalg::bounded2(viewport_rect.max@, crate::fx::FX_INPUT_MAX as int),
    ensures
        ({
            let (s1, acts) = wrap_grab_center_spec(
                match orbit_controller {
                    Some(c) => Some(*c),
                    None => None,
                },
                match fly_controller {
                    Some(c) => Some(*c),
                    None => None,
                },
                mouse_input,
                key_input,
                viewport_rect,
                cursor_position,
                *old(cursor_start_pos),
            );
            *final(cursor_start_pos) == s1 && r == acts
        }),
{
    if orbit_controller.is_none() && fly_controller.is_none() {
        return CursorActions { grab: None, winit_lock: false, set_position: None };
    }
    let mut drag_just_activated = false;
    let mut drag_just_released = false;
    let mut wrap_cursor = false;
    let mut center_cursor = false;
    if let Some(orbit) = orbit_controller {
        if orbit.is_enabled {
            drag_just_activated = drag_just_activated || orbit_just_pressed(
                orbit,
                mouse_input,
                key_input,
            ) || pan_just_pressed(orbit, mouse_input, key_input);
            drag_just_released = drag_just_released || orbit_just_released(
                orbit,
                mouse_input,
                key_input,
            ) || pan_just_released(orbit, mouse_input, key_input);
            let drag_pressed = orbit_pressed(orbit, mouse_input, key_input) || pan_pressed(
                orbit,
                mouse_input,
                key_input,
            );
            wrap_cursor = wrap_cursor || (orbit.wrap_cursor && drag_pressed);
        }
    }
    if let Some(fly) = fly_controller {
        if fly.is_enabled {
            drag_just_activated = drag_just_activated || rotate_just_pressed(
                fly,
                mouse_input,
                key_input,
            );
            drag_just_released = drag_just_released || rotate_just_released(
                fly,
                mouse_input,
                key_input,
            );
            let drag_pressed = rotate_pressed(fly, mouse_input, key_input);
            center_cursor = center_cursor || (fly.grab_cursor && drag_pressed);
        }
    }
    let center = Vec2Fx {
        x: fx_half(viewport_rect.min.x + viewport_rect.max.x),
        y: fx_half(viewport_rect.min.y + viewport_rect.max.y),
    };
    let mut grab: Option<CursorGrab> = None;
    let mut winit_lock = false;
    let mut set_position: Option<Vec2Fx> = None;
    if drag_just_activated {
        *cursor_start_pos = cursor_position;
        if wrap_cursor {
            grab = Some(CursorGrab::Locked);
        }
        if center_cursor {
            winit_lock = true;
            grab = Some(CursorGrab::Locked);
            set_position = Some(center);
        }
    } else if drag_just_released {
        *cursor_start_pos = None;
        grab = Some(CursorGrab::Released);
    }
    let in_rect = match *cursor_start_pos {
        Some(s) => viewport_rect.min.x <= s.x && s.x <= viewport_rect.max.x && viewport_rect.min.y
            <= s.y && s.y <= viewport_rect.max.y,
        None => false,
    };
    if in_rect {
        if wrap_cursor {
            match cursor_position {
                Some(p) => {
                    let x = if p.x <= viewport_rect.min.x {
                        viewport_rect.max.x
                    } else if p.x >= viewport_rect.max.x {
                        viewport_rect.min.x
                    } else {
                        p.x
                    };
                    let y = if p.y <= viewport_rect.min.y {
                        viewport_rect.max.y
                    } else if p.y >= viewport_rect.max.y {
                        viewport_rect.min.y
                    } else {
                        p.y
                    };
                    set_position = Some(Vec2Fx { x, y });
                },
                None => {
                    set_position = Some(center);
                },
            }
        }
        if center_cursor {
            set_position = Some(center);
        }
    }
    CursorActions { grab, winit_lock, set_position }
}

/// Why a control request was dropped.
#[derive(Debug, Clone, Copy, PartialEq, Eq, Structural)]
pub enum ControlError {
    /// Switching needs orbit parameters that were never established:
    /// the camera must have run (or been given) an orbit setup before
    /// its mode can be switched. The request leaves the camera
    /// untouched.
    OrbitStateUninitialized,
}

/// Exactly one of the two controllers is enabled: the mode invariant
/// every camera keeps.
pub open spec fn mode_exclusive_spec(orbit: OrbitCameraController, fly: FlyCameraController) -> bool {
    orbit.is_enabled != fly.is_enabled
}

/// Switching a camera to orbit control: only acts while fly mode is
/// enabled. Fly is disabled, orbit enabled, the orbit yaw and pitch are
/// read off the transform, and the focus is placed one radius ahead of
/// the camera. A camera whose orbit radius was never established is
/// left untouched and the request fails.
pub open spec fn switch_to_orbit_spec(
    orbit: OrbitCameraController,
    fly: FlyCameraController,
    t: TransformV,
) -> (OrbitCameraController, FlyCameraController, Result<(), ControlError>) {
    if fly.is_enabled {
        if orbit.radius is Some {
            let fwd = transform_forward_spec(t);
            let nf = clamp3_spec(
                v3_add_spec(t.position, v3_scale_clamped_spec(fwd, orbit.radius->0 as int)),
                FX_MAX as int,
            );
            (
                OrbitCameraController {
                    is_enabled: true,
                    yaw: Some(t.yaw as i64),
                    pitch: Some((-t.pitch) as i64),
                    focus: vec_of_v3(nf),
                    ..orbit
                },
                FlyCameraController { is_enabled: false, ..fly },
                Ok(()),
            )
        } else {
            (orbit, fly, Err(ControlError::OrbitStateUninitialized))
        }
    } else {
        (orbit, fly, Ok(()))
    }
}

/// Switch a camera to orbit control.
pub fn switch_to_orbit_camera_controller_system(
    transform: &CameraTransform,
    orbit_controller: &mut OrbitCameraController,
    fly_controller: &mut FlyCameraController,
) -> (r: Result<(), ControlError>)
    requires
        old(orbit_controller).wf(),
        wf_transform(transform@),
    ensures
        (*final(orbit_controller), *final(fly_controller), r) == switch_to_orbit_spec(
            *old(orbit_controller),
            *old(fly_controller),
            transform@,
        ),
        final(orbit_controller).wf(),
{
    if fly_controller.is_enabled {
        let radius = match orbit_controller.radius {
            Some(v) => v,
            None => {
                return Err(ControlError::OrbitStateUninitialized);
            },
        };
        fly_controller.is_enabled = false;
        orbit_controller.is_enabled = true;
        orbit_controller.yaw = Some(transform.yaw);
        orbit_controller.pitch = Some(-transform.pitch);
        let fwd = transform_forward(transform);
        orbit_controller.focus = crate::linalg::clamp3(
            crate::linalg::v3_add(transform.position, crate::linalg::v3_scale_clamped(fwd, radius)),
            FX_MAX,
        );
    }
    Ok(())
}

/// The projection swap: the transform and the incoming projection are
/// first updated from the orbit parameters (so the scale and position
/// suit the incoming projection's kind), then the two projections trade
/// places. The outgoing projection is cached exactly as it was.
pub open spec fn switch_projection_spec(
    c: OrbitCameraController,
    t: TransformV,
    saved: CameraProjection,
    proj: CameraProjection,
) -> (TransformV, CameraProjection, CameraProjection) {
    let (t1, np1) = update_orbit_transform_spec(
        c.yaw->0 as int,
        c.pitch->0 as int,
        c.radius->0 as int,
        c.focus@,
        saved,
    );
    (t1, proj, np1)
}

/// Swap the active projection with the saved one, keeping the orbit
/// framing consistent. The result is (new saved, new active) — the old
/// active projection is cached untouched.
pub fn switch_camera_projection(
    orbit_controller: &OrbitCameraController,
    transform: &mut CameraTransform,
    next_projection: &mut CameraProjection,
    projection: &mut CameraProjection,
)
    requires
        orbit_controller.wf(),
        orbit_controller.yaw is Some,
        orbit_controller.pitch is Some,
        orbit_controller.radius is Some,
        wf_projection(*old(next_projection)),
        wf_projection(*old(projection)),
    ensures
        (final(transform)@, *final(next_projection), *final(projection)) == switch_projection_spec(
            *orbit_controller,
            old(transform)@,
            *old(next_projection),
            *old(projection),
        ),
        wf_transform(final(transform)@),
        wf_projection(*final(next_projection)),
        wf_projection(*final(projection)),
{
    let yaw = match orbit_controller.yaw {
        Some(v) => v,
        None => unreached(),
    };
    let pitch = match orbit_controller.pitch {
        Some(v) => v,
        None => unreached(),
    };
    let radius = match orbit_controller.radius {
        Some(v) => v,
        None => unreached(),
    };
    update_orbit_transform(
        yaw,
        pitch,
        radius,
        orbit_controller.focus,
        transform,
        next_projection,
    );
    let tmp = *next_projection;
    *next_projection = *projection;
    *projection = tmp;
}

/// Toggle a camera's projection: honored only while orbit mode is
/// enabled (projection switching is undefined while fly mode owns the
/// camera, which is perspective-only). A camera whose orbit parameters
/// were never established is left untouched and the request fails.
pub open spec fn switch_projection_system_spec(
    c: OrbitCameraController,
    t: TransformV,
    saved: CameraProjection,
    proj: CameraProjection,
) -> (TransformV, CameraProjection, CameraProjection, Result<(), ControlError>) {
    if c.is_enabled {
        if c.yaw is Some && c.pitch is Some && c.radius is Some {
            let (t1, s1, p1) = switch_projection_spec(c, t, saved, proj);
            (t1, s1, p1, Ok(()))
        } else {
            (t, saved, proj, Err(ControlError::OrbitStateUninitialized))
        }
    } else {
        (t, saved, proj, Ok(()))
    }
}

/// Handle a projection-switch request for one camera.
pub fn switch_camera_projection_system(
    transform: &mut CameraTransform,
    orbit_controller: &OrbitCameraController,
    projection: &mut CameraProjection,
    next_projection: &mut CameraProjection,
) -> (r: Result<(), ControlError>)
    requires
        orbit_controller.wf(),
        wf_transform(old(transform)@),
        wf_projection(*old(next_projection)),
        wf_projection(*old(projection)),
    ensures
        (final(transform)@, *final(next_projection), *final(projection), r)
            == switch_projection_system_spec(
            *orbit_controller,
            old(transform)@,
            *old(next_projection),
            *old(projection),
        ),
        wf_transform(final(transform)@),
        wf_projection(*final(next_projection)),
        wf_projection(*final(projection)),
{
    if orbit_controller.is_enabled {
        let ok = orbit_controller.yaw.is_some() && orbit_controller.pitch.is_some()
            && orbit_controller.radius.is_some();
        if !ok {
            return Err(ControlError::OrbitStateUninitialized);
        }
        switch_camera_projection(orbit_controller, transform, next_projection, projection);
    }
    Ok(())
}

/// Switching a camera to fly control: only acts while orbit mode is
/// enabled. Orbit is disabled and fly enabled; an orthographic camera
/// is first switched to its saved perspective projection, since fly
/// mode is defined only for perspective. An orthographic camera whose
/// orbit parameters were never established is left untouched and the
/// request fails.
pub open spec fn switch_to_fly_spec(
    orbit: OrbitCameraController,
    fly: FlyCameraController,
    t: TransformV,
    saved: CameraProjection,
    proj: CameraProjection,
) -> (
    OrbitCameraController,
    FlyCameraController,
    TransformV,
    CameraProjection,
    CameraProjection,
    Result<(), ControlError>,
) {
    if orbit.is_enabled {
        if proj is Orthographic {
            if orbit.yaw is Some && orbit.pitch is Some && orbit.radius is Some {
                let (t1, s1, p1) = switch_projection_spec(orbit, t, saved, proj);
                (
                    OrbitCameraController { is_enabled: false, ..orbit },
                    FlyCameraController { is_enabled: true, ..fly },
                    t1,
                    s1,
                    p1,
                    Ok(()),
                )
            } else {
                (orbit, fly, t, saved, proj, Err(ControlError::OrbitStateUninitialized))
            }
        } else {
            (
                OrbitCameraController { is_enabled: false, ..orbit },
                FlyCameraController { is_enabled: true, ..fly },
                t,
                saved,
                proj,
                Ok(()),
            )
        }
    } else {
        (orbit, fly, t, saved, proj, Ok(()))
    }
}

/// Switch a camera to fly control.
pub fn switch_to_fly_camera_controller_system(
    transform: &mut CameraTransform,
    orbit_controller: &mut OrbitCameraController,
    fly_controller: &mut FlyCameraController,
    projection: &mut CameraProjection,
    next_projection: &mut CameraProjection,
) -> (r: Result<(), ControlError>)
    requires
        old(orbit_controller).wf(),
        wf_transform(old(transform)@),
        wf_projection(*old(next_projection)),
        wf_projection(*old(projection)),
    ensures
        (
            *final(orbit_controller),
            *final(fly_controller),
            final(transform)@,
            *final(next_projection),
            *final(projection),
            r,
        ) == switch_to_fly_spec(
            *old(orbit_controller),
            *old(fly_controller),
            old(transform)@,
            *old(next_projection),
            *old(projection),
        ),
        final(orbit_controller).wf(),
        wf_transform(final(transform)@),
        wf_projection(*final(next_projection)),
        wf_projection(*final(projection)),
{
    if orbit_controller.is_enabled {
        let is_ortho = match projection {
            CameraProjection::Orthographic(_) => true,
            CameraProjection::Perspective(_) => false,
        };
        if is_ortho {
            let ok = orbit_controller.yaw.is_some() && orbit_controller.pitch.is_some()
                && orbit_controller.radius.is_some();
            if !ok {
                return Err(ControlError::OrbitStateUninitialized);
            }
            switch_camera_projection(orbit_controller, transform, next_projection, projection);
        }
        orbit_controller.is_enabled = false;
        fly_controller.is_enabled = true;
    }
    Ok(())
}

/// The whole camera state after a sequence of mode-switch requests
/// (`true` requests fly mode, `false` orbit mode).
pub open spec fn apply_mode_switches(
    orbit: OrbitCameraController,
    fly: FlyCameraController,
    t: TransformV,
    saved: CameraProjection,
    proj: CameraProjection,
    evs: Seq<bool>,
) -> (OrbitCameraController, FlyCameraController, TransformV, CameraProjection, CameraProjection)
    decreases evs.len(),
{
    if evs.len() == 0 {
        (orbit, fly, t, saved, proj)
    } else {
        let (o1, f1, t1, s1, p1) = apply_mode_switches(orbit, fly, t, saved, proj, evs.drop_last());
        if evs.last() {
            let (o2, f2, t2, s2, p2, _r) = switch_to_fly_spec(o1, f1, t1, s1, p1);
            (o2, f2, t2, s2, p2)
        } else {
            let (o2, f2, _r) = switch_to_orbit_spec(o1, f1, t1);
            (o2, f2, t1, s1, p1)
        }
    }
}

/// Law (mode exclusivity): after any sequence of switch-to-fly and
/// switch-to-orbit requests, exactly one of the two controllers is
/// enabled — never both, never neither.
pub proof fn lemma_mode_exclusive(
    orbit: OrbitCameraController,
    fly: FlyCameraController,
    t: TransformV,
    saved: CameraProjection,
    proj: CameraProjection,
    evs: Seq<bool>,
)
    requires
        mode_exclusive_spec(orbit, fly),
    ensures
        ({
            let (o, f, _t, _s, _p) = apply_mode_switches(orbit, fly, t, saved, proj, evs);
            mode_exclusive_spec(o, f)
        }),
    decreases evs.len(),
{
    if evs.len() > 0 {
        lemma_mode_exclusive(orbit, fly, t, saved, proj, evs.drop_last());
    }
}

/// Law (projection round trip): toggling the projection of an orbit
/// camera that holds a perspective projection makes the orthographic
/// projection active with its scale set to the orbit radius; toggling
/// again restores the original perspective projection exactly — it was
/// cached, not recomputed.
pub proof fn lemma_switch_projection_round_trip(
    c: OrbitCameraController,
    t: TransformV,
    persp: crate::utils::PerspectiveParams,
    ortho: crate::utils::OrthographicParams,
)
    requires
        c.radius is Some,
    ensures
        ({
            let proj0 = CameraProjection::Perspective(persp);
            let saved0 = CameraProjection::Orthographic(ortho);
            let (t1, s1, p1) = switch_projection_spec(c, t, saved0, proj0);
            let (t2, s2, p2) = switch_projection_spec(c, t1, s1, p1);
            &&& p1 == CameraProjection::Orthographic(
                crate::utils::OrthographicParams { scale: c.radius->0, ..ortho },
            )
            &&& s1 == proj0
            &&& p2 == proj0
            &&& s2 == p1
        }),
{
}

} // verus!
