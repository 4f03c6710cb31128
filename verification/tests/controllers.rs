//! The orbit and fly controllers frame by frame: the radius floor, the
//! speed clamp, and the exact rotation, pan and translation formulas.

use blendy_cameras::fly::{fly_camera_controller_system, FlyCameraController, KEY_E};
use blendy_cameras::fx::{FX_MAX, MIN_RADIUS};
use blendy_cameras::input::{ButtonInput, MouseKeyTracker};
use blendy_cameras::linalg::{Vec2Fx, Vec3Fx};
use blendy_cameras::orbit::{orbit_camera_controller_system, OrbitCameraController};
use blendy_cameras::utils::{
    CameraProjection, CameraTransform, OrthographicParams, PerspectiveParams,
};

fn no_buttons() -> ButtonInput {
    ButtonInput::none()
}

fn simple_orbit_camera(radius: i64) -> (OrbitCameraController, CameraTransform, CameraProjection) {
    let mut c = OrbitCameraController::default();
    c.yaw = Some(0);
    c.pitch = Some(0);
    c.radius = Some(radius);
    c.focus = Vec3Fx { x: 0, y: 0, z: 0 };
    c.is_initialized = true;
    c.zoom_to_mouse_position = false;
    c.auto_depth = false;
    let t = CameraTransform { position: Vec3Fx { x: 0, y: 0, z: radius }, yaw: 0, pitch: 0 };
    let p = CameraProjection::Perspective(PerspectiveParams {
        fov: 1_000_000,
        aspect_ratio: 2_000_000,
        near: 100_000,
        far: 1_000_000_000,
    });
    (c, t, p)
}

fn window() -> Option<Vec2Fx> {
    Some(Vec2Fx { x: 1_920_000_000, y: 1_080_000_000 })
}

fn viewport() -> Option<Vec2Fx> {
    Some(Vec2Fx { x: 2_000_000_000, y: 1_000_000_000 })
}

#[test]
fn zooming_in_never_breaks_the_radius_floor() {
    // Starting at radius 0.5, scroll in every frame: each step takes a
    // fifth off, but the floor at 0.05 holds.
    let (mut c, mut t, mut p) = simple_orbit_camera(500_000);
    let mut pivot = Vec3Fx { x: 0, y: 0, z: 0 };
    let mut tracker = MouseKeyTracker::default();
    tracker.scroll_line = 1_000_000;
    for _ in 0..30 {
        orbit_camera_controller_system(
            &mut c,
            &mut t,
            &mut p,
            &mut pivot,
            true,
            None,
            None,
            window(),
            viewport(),
            &no_buttons(),
            &no_buttons(),
            &tracker,
        );
        let r = c.radius.unwrap();
        assert!(r >= MIN_RADIUS, "radius fell to {r}");
        assert!(r <= FX_MAX);
    }
    assert_eq!(c.radius, Some(MIN_RADIUS));
}

#[test]
fn zooming_out_steps_by_a_fifth() {
    let (mut c, mut t, mut p) = simple_orbit_camera(1_000_000);
    let mut pivot = Vec3Fx { x: 0, y: 0, z: 0 };
    let mut tracker = MouseKeyTracker::default();
    tracker.scroll_line = -1_000_000;
    orbit_camera_controller_system(
        &mut c,
        &mut t,
        &mut p,
        &mut pivot,
        true,
        None,
        None,
        window(),
        viewport(),
        &no_buttons(),
        &no_buttons(),
        &tracker,
    );
    assert_eq!(c.radius, Some(1_200_000));
    // The transform was reapplied at the new radius.
    assert_eq!(t.position, Vec3Fx { x: 0, y: 0, z: 1_200_000 });
}

#[test]
fn orbit_rotation_follows_the_window_fraction_formula() {
    // 192 pixels of a 1920-pixel window: a tenth of a revolution of
    // yaw; 108 pixels of a 1080-pixel window: a tenth of half a
    // revolution of pitch.
    let (mut c, mut t, mut p) = simple_orbit_camera(2_000_000);
    let mut pivot = Vec3Fx { x: 0, y: 0, z: 0 };
    let mut tracker = MouseKeyTracker::default();
    tracker.orbit = Vec2Fx { x: 192_000_000, y: 108_000_000 };
    orbit_camera_controller_system(
        &mut c,
        &mut t,
        &mut p,
        &mut pivot,
        true,
        None,
        None,
        window(),
        viewport(),
        &no_buttons(),
        &no_buttons(),
        &tracker,
    );
    assert_eq!(c.yaw, Some(-628_318));
    assert_eq!(c.pitch, Some(314_159));
}

#[test]
fn inactive_camera_does_not_move() {
    let (mut c, mut t, mut p) = simple_orbit_camera(2_000_000);
    let t0 = t;
    let mut pivot = Vec3Fx { x: 0, y: 0, z: 0 };
    let mut tracker = MouseKeyTracker::default();
    tracker.orbit = Vec2Fx { x: 192_000_000, y: 108_000_000 };
    tracker.scroll_line = 1_000_000;
    orbit_camera_controller_system(
        &mut c,
        &mut t,
        &mut p,
        &mut pivot,
        false,
        None,
        None,
        window(),
        viewport(),
        &no_buttons(),
        &no_buttons(),
        &tracker,
    );
    assert_eq!(c.yaw, Some(0));
    assert_eq!(c.radius, Some(2_000_000));
    assert_eq!(t, t0);
}

#[test]
fn panning_moves_the_focus_along_camera_axes() {
    // 100 pixels of rightward pan in a 2000-pixel viewport with a
    // 1-radian field of view, aspect 2 and radius 2: the focus moves
    // 0.2 units along the camera's left.
    let (mut c, mut t, mut p) = simple_orbit_camera(2_000_000);
    let mut pivot = Vec3Fx { x: 0, y: 0, z: 0 };
    let mut tracker = MouseKeyTracker::default();
    tracker.pan = Vec2Fx { x: 100_000_000, y: 0 };
    orbit_camera_controller_system(
        &mut c,
        &mut t,
        &mut p,
        &mut pivot,
        true,
        None,
        None,
        window(),
        viewport(),
        &no_buttons(),
        &no_buttons(),
        &tracker,
    );
    assert_eq!(c.focus, Vec3Fx { x: -200_000, y: 0, z: 0 });
}

#[test]
fn force_update_reapplies_the_transform_once() {
    let (mut c, mut t, mut p) = simple_orbit_camera(2_000_000);
    c.focus = Vec3Fx { x: 1_000_000, y: 0, z: 0 };
    c.force_update = true;
    let mut pivot = Vec3Fx { x: 0, y: 0, z: 0 };
    let tracker = MouseKeyTracker::default();
    orbit_camera_controller_system(
        &mut c,
        &mut t,
        &mut p,
        &mut pivot,
        true,
        None,
        None,
        window(),
        viewport(),
        &no_buttons(),
        &no_buttons(),
        &tracker,
    );
    assert!(!c.force_update);
    assert_eq!(t.position, Vec3Fx { x: 1_000_000, y: 0, z: 2_000_000 });
}

#[test]
fn lazy_initialization_reads_the_placed_camera() {
    let mut c = OrbitCameraController::default();
    c.zoom_to_mouse_position = false;
    c.auto_depth = false;
    assert!(!c.is_initialized);
    let mut t = CameraTransform {
        position: Vec3Fx { x: 0, y: 0, z: 3_000_000 },
        yaw: 0,
        pitch: 0,
    };
    let mut p = CameraProjection::Perspective(PerspectiveParams {
        fov: 785_398,
        aspect_ratio: 1_000_000,
        near: 100_000,
        far: 1_000_000_000,
    });
    let mut pivot = Vec3Fx { x: 0, y: 0, z: 0 };
    let tracker = MouseKeyTracker::default();
    orbit_camera_controller_system(
        &mut c,
        &mut t,
        &mut p,
        &mut pivot,
        true,
        None,
        None,
        window(),
        viewport(),
        &no_buttons(),
        &no_buttons(),
        &tracker,
    );
    assert!(c.is_initialized);
    assert_eq!(c.yaw, Some(0));
    assert_eq!(c.pitch, Some(0));
    assert_eq!(c.radius, Some(3_000_000));
}

#[test]
fn fly_speed_never_leaves_its_clamp() {
    let mut c = FlyCameraController::default();
    let mut t = CameraTransform { position: Vec3Fx { x: 0, y: 0, z: 0 }, yaw: 0, pitch: 0 };
    let mut tracker = MouseKeyTracker::default();
    // Scroll down long enough to hit the lower clamp.
    tracker.scroll_line = -1_000_000;
    for _ in 0..60 {
        fly_camera_controller_system(&mut c, &mut t, true, &no_buttons(), &tracker, window(), 0);
        assert!(c.speed >= 50_000, "speed fell to {}", c.speed);
    }
    assert_eq!(c.speed, 50_000);
    // Scroll up long enough to hit the upper clamp.
    tracker.scroll_line = 1_000_000;
    for _ in 0..200 {
        fly_camera_controller_system(&mut c, &mut t, true, &no_buttons(), &tracker, window(), 0);
        assert!(c.speed <= 100_000_000, "speed rose to {}", c.speed);
    }
    assert_eq!(c.speed, 100_000_000);
}

#[test]
fn fly_rotation_follows_the_window_fraction_formula() {
    let mut c = FlyCameraController::default();
    let mut t = CameraTransform { position: Vec3Fx { x: 0, y: 0, z: 0 }, yaw: 0, pitch: 0 };
    let mut tracker = MouseKeyTracker::default();
    tracker.rotate = Vec2Fx { x: 192_000_000, y: 108_000_000 };
    fly_camera_controller_system(&mut c, &mut t, true, &no_buttons(), &tracker, window(), 0);
    assert_eq!(t.yaw, -628_318);
    assert_eq!(t.pitch, -314_159);
}

#[test]
fn fly_translation_moves_along_held_keys() {
    let mut c = FlyCameraController::default();
    let mut t = CameraTransform { position: Vec3Fx { x: 0, y: 0, z: 0 }, yaw: 0, pitch: 0 };
    let tracker = MouseKeyTracker::default();
    let mut keys = ButtonInput::none();
    keys.pressed = vec![KEY_E];
    // One sixtieth of a second at speed 1: a sixtieth of a unit
    // forward (toward negative Z at the identity orientation).
    fly_camera_controller_system(&mut c, &mut t, true, &keys, &tracker, window(), 16_667);
    assert_eq!(t.position, Vec3Fx { x: 0, y: 0, z: -16_667 });
}

#[test]
fn fly_opposite_keys_cancel() {
    let mut c = FlyCameraController::default();
    let mut t = CameraTransform { position: Vec3Fx { x: 0, y: 0, z: 0 }, yaw: 0, pitch: 0 };
    let tracker = MouseKeyTracker::default();
    let mut keys = ButtonInput::none();
    keys.pressed = vec![c.key_move_forward, c.key_move_backward];
    fly_camera_controller_system(&mut c, &mut t, true, &keys, &tracker, window(), 16_667);
    assert_eq!(t.position, Vec3Fx { x: 0, y: 0, z: 0 });
}

#[test]
fn orthographic_pan_uses_the_projection_area() {
    // 100 pixels of pan in a 2000-pixel viewport over a 16-unit-wide
    // orthographic area: the focus moves 0.8 units.
    let (mut c, mut t, _) = simple_orbit_camera(2_000_000);
    let mut p = CameraProjection::Orthographic(OrthographicParams {
        scale: 2_000_000,
        area_width: 16_000_000,
        area_height: 9_000_000,
        near: 0,
        far: 1_000_000_000,
    });
    let mut pivot = Vec3Fx { x: 0, y: 0, z: 0 };
    let mut tracker = MouseKeyTracker::default();
    tracker.pan = Vec2Fx { x: 100_000_000, y: 0 };
    orbit_camera_controller_system(
        &mut c,
        &mut t,
        &mut p,
        &mut pivot,
        true,
        None,
        None,
        window(),
        viewport(),
        &no_buttons(),
        &no_buttons(),
        &tracker,
    );
    assert_eq!(c.focus, Vec3Fx { x: -800_000, y: 0, z: 0 });
}

#[test]
fn auto_depth_retargets_focus_to_the_surface_hit() {
    // Camera at (0, 0, 5) looking at the origin; the surface under the
    // cursor is at (0, 0, 1), four units ahead. Auto depth re-anchors
    // the orbit there: radius 4, focus on the hit.
    let (mut c, mut t, mut p) = simple_orbit_camera(5_000_000);
    c.auto_depth = true;
    t.position = Vec3Fx { x: 0, y: 0, z: 5_000_000 };
    let mut pivot = Vec3Fx { x: 0, y: 0, z: 0 };
    let tracker = MouseKeyTracker::default();
    // The orbit drag begins this frame, which samples the pivot.
    let mouse = ButtonInput {
        pressed: vec![blendy_cameras::orbit::MOUSE_BUTTON_MIDDLE],
        just_pressed: vec![blendy_cameras::orbit::MOUSE_BUTTON_MIDDLE],
        just_released: vec![],
    };
    let ray = blendy_cameras::linalg::RayFx {
        origin: Vec3Fx { x: 0, y: 0, z: 4_900_000 },
        direction: Vec3Fx { x: 0, y: 0, z: -1_000_000 },
    };
    let hit = Vec3Fx { x: 0, y: 0, z: 1_000_000 };
    orbit_camera_controller_system(
        &mut c,
        &mut t,
        &mut p,
        &mut pivot,
        true,
        Some(ray),
        Some(hit),
        window(),
        viewport(),
        &no_buttons(),
        &mouse,
        &tracker,
    );
    assert_eq!(pivot, hit);
    assert_eq!(c.radius, Some(4_000_000));
    assert_eq!(c.focus, Vec3Fx { x: 0, y: 0, z: 1_000_000 });
}

#[test]
fn zoom_to_cursor_pulls_the_focus_toward_the_pivot() {
    // Camera at (0, 0, 5) looking at the origin with an off-axis pivot
    // at (1, 0, 0): zooming in dollies toward the pivot, dragging the
    // focus sideways. A zoom that ignored the pivot would leave the
    // focus at the origin.
    let (mut c, mut t, mut p) = simple_orbit_camera(5_000_000);
    c.zoom_to_mouse_position = true;
    t.position = Vec3Fx { x: 0, y: 0, z: 5_000_000 };
    let mut pivot = Vec3Fx { x: 1_000_000, y: 0, z: 0 };
    let mut tracker = MouseKeyTracker::default();
    tracker.scroll_line = 1_000_000;
    orbit_camera_controller_system(
        &mut c,
        &mut t,
        &mut p,
        &mut pivot,
        true,
        None,
        None,
        window(),
        viewport(),
        &no_buttons(),
        &no_buttons(),
        &tracker,
    );
    assert_eq!(c.radius, Some(4_000_000));
    assert!(c.focus.x > 150_000 && c.focus.x < 250_000, "focus.x = {}", c.focus.x);
    assert!(c.focus.z.abs() < 10_000, "focus.z = {}", c.focus.z);
    assert_eq!(c.focus.y, 0);
}
