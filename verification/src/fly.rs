//! The fly camera controller: free translation and rotation for one
//! camera, with scroll-driven speed control.

use vstd::prelude::*;

use crate::fx::FX_INPUT_MAX;
use crate::fx::FX_MAX;
use crate::fx::FX_PI;
use crate::fx::FX_TWO_PI;
use crate::fx::clamp_spec;
use crate::fx::fx_clamp;
use crate::fx::fx_div_clamped;
use crate::fx::fx_div_clamped_spec;
use crate::fx::fx_mul_clamped;
use crate::fx::fx_mul_clamped_spec;
use crate::input::ButtonInput;
use crate::input::MouseKeyTracker;
use crate::input::TrackerV;
use crate::input::wf_tracker;
use crate::linalg::V3;
use crate::linalg::Vec2Fx;
use crate::linalg::Vec3Fx;
use crate::linalg::clamp3;
use crate::linalg::clamp3_spec;
use crate::linalg::v3_add;
use crate::linalg::v3_add_spec;
use crate::linalg::v3_normalize_or_zero;
use crate::linalg::v3_normalize_or_zero_spec;
use crate::linalg::v3_scale_clamped;
use crate::linalg::v3_scale_clamped_spec;
use crate::orbit::MOUSE_BUTTON_MIDDLE;
use crate::orbit::wf_size;
use crate::utils::CameraTransform;
use crate::utils::TransformV;
use crate::utils::transform_forward;
use crate::utils::transform_forward_spec;
use crate::utils::transform_right;
use crate::utils::transform_right_spec;
use crate::utils::transform_up;
use crate::utils::transform_up_spec;
use crate::utils::wf_transform;

verus! {

/// Least fly speed (0.05 units per second): scrolling down never stalls
/// the camera.
pub const MIN_FLY_SPEED: i64 = 50_000;

/// Greatest fly speed (100 units per second): scrolling up never runs
/// away.
pub const MAX_FLY_SPEED: i64 = 100_000_000;

/// Identifier of the default forward key.
pub const KEY_E: u32 = 102;

/// Identifier of the default backward key.
pub const KEY_D: u32 = 103;

/// Identifier of the default left key.
pub const KEY_S: u32 = 104;

/// Identifier of the default right key.
pub const KEY_F: u32 = 105;

/// Identifier of the default up key.
pub const KEY_R: u32 = 106;

/// Identifier of the default down key.
pub const KEY_W: u32 = 107;

/// Per-camera state for fly mode. The camera must also carry a
/// transform and a projection.
#[derive(Debug, Clone, Copy)]
pub struct FlyCameraController {
    /// Speed of the translation, updated by scrolling and kept within
    /// the speed clamp.
    pub speed: i64,
    /// Key that moves the camera forward.
    pub key_move_forward: u32,
    /// Key that moves the camera backward.
    pub key_move_backward: u32,
    /// Key that moves the camera left.
    pub key_move_left: u32,
    /// Key that moves the camera right.
    pub key_move_right: u32,
    /// Key that moves the camera up.
    pub key_move_up: u32,
    /// Key that moves the camera down.
    pub key_move_down: u32,
    /// Mouse button that rotates the camera.
    pub button_rotate: u32,
    /// Key that must be held for `button_rotate` to act.
    pub modifier_rotate: Option<u32>,
    /// Sensitivity of the speed change.
    pub speed_sensitivity: i64,
    /// Sensitivity of the movement.
    pub move_sensitivity: i64,
    /// Sensitivity of the rotation.
    pub rotate_sensitivity: i64,
    /// The controller moves the camera only while enabled.
    pub is_enabled: bool,
    /// Grab the mouse cursor while rotating.
    pub grab_cursor: bool,
}

impl FlyCameraController {
    /// Well-formedness: the speed is within the clamp and the
    /// sensitivities are bounded inputs.
    pub open spec fn wf(self) -> bool {
        &&& MIN_FLY_SPEED <= self.speed <= MAX_FLY_SPEED
        &&& 0 <= self.speed_sensitivity <= FX_INPUT_MAX
        &&& 0 <= self.move_sensitivity <= FX_INPUT_MAX
        &&& 0 <= self.rotate_sensitivity <= FX_INPUT_MAX
    }
}

impl Default for FlyCameraController {
    /// The stock configuration: speed one, the E/D/S/F/R/W movement
    /// keys, rotation on the middle mouse button, all sensitivities
    /// one, cursor grab on.
    fn default() -> (c: Self)
        ensures
            c.wf(),
            c.is_enabled,
            c.speed == 1_000_000,
            c.key_move_forward == KEY_E,
            c.key_move_backward == KEY_D,
            c.key_move_left == KEY_S,
            c.key_move_right == KEY_F,
            c.key_move_up == KEY_R,
            c.key_move_down == KEY_W,
            c.button_rotate == MOUSE_BUTTON_MIDDLE,
            c.modifier_rotate is None,
            c.speed_sensitivity == 1_000_000 && c.move_sensitivity == 1_000_000
                && c.rotate_sensitivity == 1_000_000,
            c.grab_cursor,
    {
        FlyCameraController {
            speed: 1_000_000,
            key_move_forward: KEY_E,
            key_move_backward: KEY_D,
            key_move_left: KEY_S,
            key_move_right: KEY_F,
            key_move_up: KEY_R,
            key_move_down: KEY_W,
            button_rotate: MOUSE_BUTTON_MIDDLE,
            modifier_rotate: None,
            speed_sensitivity: 1_000_000,
            move_sensitivity: 1_000_000,
            rotate_sensitivity: 1_000_000,
            is_enabled: true,
            grab_cursor: true,
        }
    }
}

/// The fly speed after one frame's scroll: each scroll unit steps the
/// speed by a tenth of itself, and the result is clamped into the speed
/// range.
pub open spec fn fly_speed_step_spec(speed: int, sens: int, line: int, pixel: int) -> int {
    let sl = fx_mul_clamped_spec(line, sens);
    let sp = fx_mul_clamped_spec(pixel, sens);
    if sl + sp != 0 {
        let delta = fx_mul_clamped_spec(fx_mul_clamped_spec(sl, speed), 100_000)
            + fx_mul_clamped_spec(fx_mul_clamped_spec(sp, speed), 100_000);
        clamp_spec(speed + delta, MIN_FLY_SPEED as int, MAX_FLY_SPEED as int)
    } else {
        speed
    }
}

/// The sum of the local axes of the held movement keys: each binding
/// whose key is held contributes its axis (forward, backward, left,
/// right, up, down), so diagonal movement is the vector sum.
pub open spec fn fly_translation_dir_spec(
    c: FlyCameraController,
    keys: &ButtonInput,
    t: TransformV,
) -> V3 {
    let fwd = transform_forward_spec(t);
    let right = transform_right_spec(t);
    let up = transform_up_spec(t);
    let zero = V3 { x: 0, y: 0, z: 0 };
    let s1 = if keys.spec_pressed(c.key_move_forward) {
        fwd
    } else {
        zero
    };
    let s2 = v3_add_spec(
        s1,
        if keys.spec_pressed(c.key_move_backward) {
            V3 { x: -fwd.x, y: -fwd.y, z: -fwd.z }
        } else {
            zero
        },
    );
    let s3 = v3_add_spec(
        s2,
        if keys.spec_pressed(c.key_move_left) {
            V3 { x: -right.x, y: -right.y, z: -right.z }
        } else {
            zero
        },
    );
    let s4 = v3_add_spec(
        s3,
        if keys.spec_pressed(c.key_move_right) {
            right
        } else {
            zero
        },
    );
    let s5 = v3_add_spec(
        s4,
        if keys.spec_pressed(c.key_move_up) {
            up
        } else {
            zero
        },
    );
    v3_add_spec(
        s5,
        if keys.spec_pressed(c.key_move_down) {
            V3 { x: -up.x, y: -up.y, z: -up.z }
        } else {
            zero
        },
    )
}

/// One frame of the fly controller: scroll steps the speed, a held
/// rotate drag turns the camera (yaw before pitch, so no roll ever
/// appears), and the held movement keys translate it along its own
/// axes, scaled by speed, sensitivity and the frame time.
#[verifier::opaque]
pub open spec fn fly_frame_spec(
    c: FlyCameraController,
    t: TransformV,
    is_active: bool,
    keys: &ButtonInput,
    tk: TrackerV,
    ws: Option<Vec2Fx>,
    dt: int,
) -> (FlyCameraController, TransformV) {
    if c.is_enabled && is_active {
        let speed1 = fly_speed_step_spec(
            c.speed as int,
            c.speed_sensitivity as int,
            tk.scroll_line,
            tk.scroll_pixel,
        );
        let rx = fx_mul_clamped_spec(tk.rotate.x, c.rotate_sensitivity as int);
        let ry = fx_mul_clamped_spec(tk.rotate.y, c.rotate_sensitivity as int);
        let yaw1 = if (rx != 0 || ry != 0) && ws is Some {
            let dy = fx_mul_clamped_spec(
                fx_div_clamped_spec(rx, ws->0.x as int),
                FX_TWO_PI as int,
            );
            clamp_spec(t.yaw - dy, -(FX_MAX as int), FX_MAX as int)
        } else {
            t.yaw
        };
        let pitch1 = if (rx != 0 || ry != 0) && ws is Some {
            let dp = fx_mul_clamped_spec(fx_div_clamped_spec(ry, ws->0.y as int), FX_PI as int);
            clamp_spec(t.pitch - dp, -(FX_MAX as int), FX_MAX as int)
        } else {
            t.pitch
        };
        let t1 = TransformV { position: t.position, yaw: yaw1, pitch: pitch1 };
        let dir = v3_normalize_or_zero_spec(fly_translation_dir_spec(c, keys, t1));
        let k = fx_mul_clamped_spec(
            fx_mul_clamped_spec(speed1, c.move_sensitivity as int),
            dt,
        );
        let pos1 = clamp3_spec(
            v3_add_spec(t.position, v3_scale_clamped_spec(dir, k)),
            2 * FX_MAX,
        );
        (
            FlyCameraController { speed: speed1 as i64, ..c },
            TransformV { position: pos1, yaw: yaw1, pitch: pitch1 },
        )
    } else {
        (c, t)
    }
}

/// Step the speed from one frame's scroll.
fn fly_speed_step(speed: i64, sens: i64, line: i64, pixel: i64) -> (r: i64)
    requires
        MIN_FLY_SPEED <= speed <= MAX_FLY_SPEED,
    ensures
        r as int == fly_speed_step_spec(speed as int, sens as int, line as int, pixel as int),
        MIN_FLY_SPEED <= r <= MAX_FLY_SPEED,
{
    let sl = fx_mul_clamped(line, sens);
    let sp = fx_mul_clamped(pixel, sens);
    if sl + sp != 0 {
        let delta = fx_mul_clamped(fx_mul_clamped(sl, speed), 100_000) + fx_mul_clamped(
            fx_mul_clamped(sp, speed),
            100_000,
        );
        fx_clamp(speed + delta, MIN_FLY_SPEED, MAX_FLY_SPEED)
    } else {
        speed
    }
}

/// Sum the local axes of the held movement keys.
#[verifier::rlimit(100)]
fn fly_translation_dir(
    controller: &FlyCameraController,
    key_input: &ButtonInput,
    transform: &CameraTransform,
) -> (r: Vec3Fx)
    requires
        crate::utils::axis_angle_ok(transform.yaw as int),
        crate::utils::axis_angle_ok(transform.pitch as int),
    ensures
        r@ == fly_translation_dir_spec(*controller, key_input, transform@),
        crate::linalg::bounded3(r@, 6_000_000),
{
    let fwd = transform_forward(transform);
    let right = transform_right(transform);
    let up = transform_up(transform);
    let zero = Vec3Fx::zero();
    let s1 = if key_input.is_pressed(controller.key_move_forward) {
        fwd
    } else {
        zero
    };
    let s2 = v3_add(
        s1,
        if key_input.is_pressed(controller.key_move_backward) {
            Vec3Fx { x: -fwd.x, y: -fwd.y, z: -fwd.z }
        } else {
            zero
        },
    );
    let s3 = v3_add(
        s2,
        if key_input.is_pressed(controller.key_move_left) {
            Vec3Fx { x: -right.x, y: -right.y, z: -right.z }
        } else {
            zero
        },
    );
    let s4 = v3_add(
        s3,
        if key_input.is_pressed(controller.key_move_right) {
            right
        } else {
            zero
        },
    );
    let s5 = v3_add(
        s4,
        if key_input.is_pressed(controller.key_move_up) {
            up
        } else {
            zero
        },
    );
    v3_add(
        s5,
        if key_input.is_pressed(controller.key_move_down) {
            Vec3Fx { x: -up.x, y: -up.y, z: -up.z }
        } else {
            zero
        },
    )
}

/// Run one frame of the fly controller for one camera. `is_active`
/// says whether the arbiter's active camera is this one; `delta_time`
/// is the frame time in fixed-point seconds. The controller and
/// transform are updated in place.
#[verifier::rlimit(100)]
pub fn fly_camera_controller_system(
    controller: &mut FlyCameraController,
    transform: &mut CameraTransform,
    is_active: bool,
    key_input: &ButtonInput,
    mouse_key_tracker: &MouseKeyTracker,
    window_size: Option<Vec2Fx>,
    delta_time: i64,
)
    requires
        old(controller).wf(),
        wf_transform(old(transform)@),
        wf_tracker(mouse_key_tracker@),
        wf_size(window_size),
        0 <= delta_time <= FX_INPUT_MAX,
    ensures
        (*final(controller), final(transform)@) == fly_frame_spec(
            *old(controller),
            old(transform)@,
            is_active,
            key_input,
            mouse_key_tracker@,
            window_size,
            delta_time as int,
        ),
        final(controller).wf(),
        wf_transform(final(transform)@),
{
    proof {
        reveal(fly_frame_spec);
    }
    if controller.is_enabled && is_active {
        controller.speed = fly_speed_step(
            controller.speed,
            controller.speed_sensitivity,
            mouse_key_tracker.scroll_line,
            mouse_key_tracker.scroll_pixel,
        );
        let rx = fx_mul_clamped(mouse_key_tracker.rotate.x, controller.rotate_sensitivity);
        let ry = fx_mul_clamped(mouse_key_tracker.rotate.y, controller.rotate_sensitivity);
        if rx != 0 || ry != 0 {
            if let Some(w) = window_size {
                let dy = fx_mul_clamped(fx_div_clamped(rx, w.x), FX_TWO_PI);
                let dp = fx_mul_clamped(fx_div_clamped(ry, w.y), FX_PI);
                transform.yaw = fx_clamp(transform.yaw - dy, -FX_MAX, FX_MAX);
                transform.pitch = fx_clamp(transform.pitch - dp, -FX_MAX, FX_MAX);
            }
        }
        let s6 = fly_translation_dir(controller, key_input, transform);
        let dir = v3_normalize_or_zero(s6);
        let k = fx_mul_clamped(
            fx_mul_clamped(controller.speed, controller.move_sensitivity),
            delta_time,
        );
        transform.position = clamp3(
            v3_add(transform.position, v3_scale_clamped(dir, k)),
            2 * FX_MAX,
        );
    }
}

/// The fly speed after a sequence of scroll events.
pub open spec fn speed_after_scrolls(speed: int, scrolls: Seq<(int, int)>, sens: int) -> int
    decreases scrolls.len(),
{
    if scrolls.len() == 0 {
        speed
    } else {
        fly_speed_step_spec(
            speed_after_scrolls(speed, scrolls.drop_last(), sens),
            sens,
            scrolls.last().0,
            scrolls.last().1,
        )
    }
}

/// Law (speed clamp): no sequence of scroll events drives the fly
/// speed below its lower clamp or above its upper clamp.
pub proof fn lemma_fly_speed_clamp(speed: int, scrolls: Seq<(int, int)>, sens: int)
    requires
        MIN_FLY_SPEED <= speed <= MAX_FLY_SPEED,
    ensures
        MIN_FLY_SPEED <= speed_after_scrolls(speed, scrolls, sens) <= MAX_FLY_SPEED,
    decreases scrolls.len(),
{
    if scrolls.len() > 0 {
        lemma_fly_speed_clamp(speed, scrolls.drop_last(), sens);
    }
}

} // verus!
