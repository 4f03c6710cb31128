//! Frame-to-bounds and the per-frame input reduction.

use blendy_cameras::fly::FlyCameraController;
use blendy_cameras::frame::{frame_system, frame_target, get_entities_aabb, Aabb};
use blendy_cameras::input::{
    mouse_key_tracker_system, orbit_pressed, pan_pressed, ButtonInput, MouseKeyTracker,
    ScrollEvent, ScrollUnit,
};
use blendy_cameras::linalg::{Vec2Fx, Vec3Fx};
use blendy_cameras::orbit::{OrbitCameraController, KEY_SHIFT_LEFT, MOUSE_BUTTON_MIDDLE};
use blendy_cameras::utils::{CameraProjection, CameraTransform, PerspectiveParams};

fn stock_perspective() -> CameraProjection {
    CameraProjection::Perspective(PerspectiveParams {
        fov: 785_398,
        aspect_ratio: 1_777_777,
        near: 100_000,
        far: 1_000_000_000,
    })
}

#[test]
fn framing_a_unit_cube_matches_the_margin_formula() {
    // A cube centered at (0, 0.5, 0) with half-extent 0.5: the focus
    // lands on its center and the distance is 1.3 times the diagonal
    // of the 1x1x1 box, about 2.25.
    let boxes = vec![Aabb {
        min: Vec3Fx { x: -500_000, y: 0, z: -500_000 },
        max: Vec3Fx { x: 500_000, y: 1_000_000, z: 500_000 },
    }];
    let (mn, mx) = get_entities_aabb(&boxes);
    let (center, distance) = frame_target(mn, mx).expect("bounds are not degenerate");
    assert_eq!(center, Vec3Fx { x: 0, y: 500_000, z: 0 });
    assert_eq!(distance, 2_251_665);
    let mut orbit = Some({
        let mut c = OrbitCameraController::default();
        c.yaw = Some(0);
        c.pitch = Some(0);
        c.is_initialized = true;
        c.radius = Some(1_000_000);
        c
    });
    let mut fly: Option<FlyCameraController> = None;
    let mut t = CameraTransform { position: Vec3Fx { x: 0, y: 0, z: 0 }, yaw: 0, pitch: 0 };
    let mut p = stock_perspective();
    frame_system(&mut orbit, &mut fly, &mut t, &mut p, center, distance);
    let c = orbit.unwrap();
    assert_eq!(c.focus, center);
    assert_eq!(c.radius, Some(2_251_665));
    assert_eq!(t.position, Vec3Fx { x: 0, y: 500_000, z: 2_251_665 });
}

#[test]
fn degenerate_bounds_give_no_target() {
    let empty: Vec<Aabb> = vec![];
    let (mn, mx) = get_entities_aabb(&empty);
    assert!(frame_target(mn, mx).is_none());
    // A single point has no extent either.
    let point = vec![Aabb {
        min: Vec3Fx { x: 1_000_000, y: 1_000_000, z: 1_000_000 },
        max: Vec3Fx { x: 1_000_000, y: 1_000_000, z: 1_000_000 },
    }];
    let (mn, mx) = get_entities_aabb(&point);
    assert!(frame_target(mn, mx).is_none());
}

#[test]
fn bounds_union_covers_all_boxes() {
    let boxes = vec![
        Aabb {
            min: Vec3Fx { x: -2_000_000, y: 0, z: 0 },
            max: Vec3Fx { x: -1_000_000, y: 1_000_000, z: 500_000 },
        },
        Aabb {
            min: Vec3Fx { x: 3_000_000, y: -500_000, z: 0 },
            max: Vec3Fx { x: 4_000_000, y: 0, z: 2_000_000 },
        },
    ];
    let (mn, mx) = get_entities_aabb(&boxes);
    assert_eq!(mn, Vec3Fx { x: -2_000_000, y: -500_000, z: 0 });
    assert_eq!(mx, Vec3Fx { x: 4_000_000, y: 1_000_000, z: 2_000_000 });
}

#[test]
fn framing_a_fly_camera_backs_away_from_the_center() {
    let mut orbit: Option<OrbitCameraController> = None;
    let mut fly = Some(FlyCameraController::default());
    let mut t = CameraTransform { position: Vec3Fx { x: 9, y: 9, z: 9 }, yaw: 0, pitch: 0 };
    let mut p = stock_perspective();
    let center = Vec3Fx { x: 0, y: 500_000, z: 0 };
    frame_system(&mut orbit, &mut fly, &mut t, &mut p, center, 2_000_000);
    // The orientation is kept; the camera backs off along its back
    // axis (positive Z at the identity orientation).
    assert_eq!(t.yaw, 0);
    assert_eq!(t.pitch, 0);
    assert_eq!(t.position, Vec3Fx { x: 0, y: 500_000, z: 2_000_000 });
}

#[test]
fn drag_gates_route_motion_to_orbit_or_pan() {
    let orbit = OrbitCameraController::default();
    let keys = ButtonInput::none();
    let held = ButtonInput {
        pressed: vec![MOUSE_BUTTON_MIDDLE],
        just_pressed: vec![],
        just_released: vec![],
    };
    assert!(orbit_pressed(&orbit, &held, &keys));
    assert!(!pan_pressed(&orbit, &held, &keys));
    // With the pan modifier held, the same button pans instead.
    let shifted = ButtonInput {
        pressed: vec![KEY_SHIFT_LEFT],
        just_pressed: vec![],
        just_released: vec![],
    };
    assert!(!orbit_pressed(&orbit, &held, &shifted));
    assert!(pan_pressed(&orbit, &held, &shifted));
}

#[test]
fn tracker_sums_motion_and_scales_pixel_scroll() {
    let orbit = OrbitCameraController::default();
    let mut tracker = MouseKeyTracker::default();
    let held = ButtonInput {
        pressed: vec![MOUSE_BUTTON_MIDDLE],
        just_pressed: vec![],
        just_released: vec![],
    };
    let motion = vec![
        Vec2Fx { x: 3_000_000, y: -1_000_000 },
        Vec2Fx { x: 2_000_000, y: 5_000_000 },
    ];
    let scrolls = vec![
        ScrollEvent { unit: ScrollUnit::Line, y: 2_000_000 },
        ScrollEvent { unit: ScrollUnit::Pixel, y: 1_000_000 },
    ];
    mouse_key_tracker_system(
        &mut tracker,
        &held,
        &ButtonInput::none(),
        &motion,
        &scrolls,
        Some(&orbit),
        None,
    );
    assert_eq!(tracker.orbit, Vec2Fx { x: 5_000_000, y: 4_000_000 });
    assert_eq!(tracker.pan, Vec2Fx { x: 0, y: 0 });
    assert_eq!(tracker.scroll_line, 2_000_000);
    // A pixel of scroll counts five thousandths of a line.
    assert_eq!(tracker.scroll_pixel, 5_000);
    assert!(!tracker.orbit_button_changed);
}

#[test]
fn tracker_flags_orbit_button_edges() {
    let orbit = OrbitCameraController::default();
    let mut tracker = MouseKeyTracker::default();
    let edge = ButtonInput {
        pressed: vec![MOUSE_BUTTON_MIDDLE],
        just_pressed: vec![MOUSE_BUTTON_MIDDLE],
        just_released: vec![],
    };
    mouse_key_tracker_system(
        &mut tracker,
        &edge,
        &ButtonInput::none(),
        &vec![],
        &vec![],
        Some(&orbit),
        None,
    );
    assert!(tracker.orbit_button_changed);
}

#[test]
fn tracker_keeps_contents_without_an_active_controller() {
    let mut tracker = MouseKeyTracker::default();
    tracker.scroll_line = 7_000_000;
    mouse_key_tracker_system(
        &mut tracker,
        &ButtonInput::none(),
        &ButtonInput::none(),
        &vec![Vec2Fx { x: 1_000_000, y: 0 }],
        &vec![],
        None,
        None,
    );
    assert_eq!(tracker.scroll_line, 7_000_000);
}

#[test]
fn tracker_routes_motion_to_fly_rotation() {
    let fly = FlyCameraController::default();
    let mut tracker = MouseKeyTracker::default();
    let held = ButtonInput {
        pressed: vec![MOUSE_BUTTON_MIDDLE],
        just_pressed: vec![],
        just_released: vec![],
    };
    let motion = vec![Vec2Fx { x: 4_000_000, y: 2_000_000 }];
    mouse_key_tracker_system(
        &mut tracker,
        &held,
        &ButtonInput::none(),
        &motion,
        &vec![],
        None,
        Some(&fly),
    );
    assert_eq!(tracker.rotate, Vec2Fx { x: 4_000_000, y: 2_000_000 });
    assert_eq!(tracker.orbit, Vec2Fx { x: 0, y: 0 });
}
