//! Active-camera arbitration across overlapping viewports, the
//! camera-under-cursor query, and the cursor grab/wrap/center
//! decisions.

use blendy_cameras::egui::EguiWantsFocus;
use blendy_cameras::fly::FlyCameraController;
use blendy_cameras::input::ButtonInput;
use blendy_cameras::linalg::{RectFx, Vec2Fx};
use blendy_cameras::orbit::{OrbitCameraController, MOUSE_BUTTON_MIDDLE};
use blendy_cameras::{
    active_viewport_data_system, get_camera_entity_from_cursor_position,
    get_window_if_cursor_in_camera_viewport, wrap_grab_center_cursor_system, ActiveCameraData,
    ArbitrationCamera, CursorGrab, TouchState, WindowSnapshot,
};

fn rect(x0: i64, y0: i64, x1: i64, y1: i64) -> RectFx {
    RectFx { min: Vec2Fx { x: x0, y: y0 }, max: Vec2Fx { x: x1, y: y1 } }
}

fn camera(entity: u64, order: i64, cursor: Option<Vec2Fx>, vp: RectFx) -> ArbitrationCamera {
    ArbitrationCamera {
        entity,
        order,
        window: Some(WindowSnapshot {
            entity: 900 + entity,
            size: Vec2Fx { x: 1_920_000_000, y: 1_080_000_000 },
            cursor_position: cursor,
        }),
        viewport_rect: Some(vp),
        viewport_size: Some(Vec2Fx { x: 960_000_000, y: 540_000_000 }),
        orbit: Some(OrbitCameraController::default()),
        fly: None,
    }
}

fn middle_pressed() -> ButtonInput {
    ButtonInput {
        pressed: vec![MOUSE_BUTTON_MIDDLE],
        just_pressed: vec![MOUSE_BUTTON_MIDDLE],
        just_released: vec![],
    }
}

#[test]
fn cursor_in_viewport_resolves_the_window() {
    let inside = Some(Vec2Fx { x: 100_000_000, y: 100_000_000 });
    let cam = camera(1, 0, inside, rect(0, 0, 960_000_000, 540_000_000));
    assert!(get_window_if_cursor_in_camera_viewport(&cam, None).is_some());
    let outside = Some(Vec2Fx { x: 970_000_000, y: 100_000_000 });
    let cam = camera(1, 0, outside, rect(0, 0, 960_000_000, 540_000_000));
    assert!(get_window_if_cursor_in_camera_viewport(&cam, None).is_none());
    // The viewport edges count as outside.
    let on_edge = Some(Vec2Fx { x: 0, y: 100_000_000 });
    let cam = camera(1, 0, on_edge, rect(0, 0, 960_000_000, 540_000_000));
    assert!(get_window_if_cursor_in_camera_viewport(&cam, None).is_none());
}

#[test]
fn touch_position_substitutes_for_the_cursor() {
    let mut cam = camera(1, 0, None, rect(0, 0, 960_000_000, 540_000_000));
    cam.window = Some(WindowSnapshot {
        entity: 901,
        size: Vec2Fx { x: 1_920_000_000, y: 1_080_000_000 },
        cursor_position: None,
    });
    let touches = TouchState {
        total_count: 1,
        just_pressed_count: 1,
        first_just_pressed_position: Some(Vec2Fx { x: 50_000_000, y: 50_000_000 }),
    };
    assert!(get_window_if_cursor_in_camera_viewport(&cam, Some(&touches)).is_some());
    assert!(get_window_if_cursor_in_camera_viewport(&cam, None).is_none());
}

#[test]
fn highest_order_viewport_wins_under_cursor() {
    let p = Some(Vec2Fx { x: 100_000_000, y: 100_000_000 });
    let vp = rect(0, 0, 960_000_000, 540_000_000);
    let cams = vec![camera(1, 0, p, vp), camera(2, 5, p, vp), camera(3, 2, p, vp)];
    assert_eq!(get_camera_entity_from_cursor_position(&cams), Some(2));
}

#[test]
fn order_ties_go_to_the_later_camera() {
    let p = Some(Vec2Fx { x: 100_000_000, y: 100_000_000 });
    let vp = rect(0, 0, 960_000_000, 540_000_000);
    let cams = vec![camera(1, 3, p, vp), camera(2, 3, p, vp)];
    assert_eq!(get_camera_entity_from_cursor_position(&cams), Some(2));
    // Determinism: the same input gives the same winner, run after run.
    for _ in 0..10 {
        assert_eq!(get_camera_entity_from_cursor_position(&cams), Some(2));
    }
}

#[test]
fn arbiter_selects_on_activation_and_ties_break_late() {
    let p = Some(Vec2Fx { x: 100_000_000, y: 100_000_000 });
    let vp = rect(0, 0, 960_000_000, 540_000_000);
    let cams = vec![camera(7, 3, p, vp), camera(8, 3, p, vp)];
    let mut active = ActiveCameraData::default();
    active_viewport_data_system(
        &mut active,
        &middle_pressed(),
        &ButtonInput::none(),
        false,
        &TouchState::none(),
        &cams,
        &EguiWantsFocus::default(),
    );
    assert_eq!(active.entity, Some(8));
    assert_eq!(active.window_entity, Some(908));
    assert_eq!(active.window_size, Some(Vec2Fx { x: 1_920_000_000, y: 1_080_000_000 }));
    assert!(!active.manual);
    // Determinism across repeated identical runs.
    let mut again = ActiveCameraData::default();
    active_viewport_data_system(
        &mut again,
        &middle_pressed(),
        &ButtonInput::none(),
        false,
        &TouchState::none(),
        &cams,
        &EguiWantsFocus::default(),
    );
    assert_eq!(again.entity, active.entity);
}

#[test]
fn arbiter_is_sticky_without_new_input() {
    let p = Some(Vec2Fx { x: 100_000_000, y: 100_000_000 });
    let vp = rect(0, 0, 960_000_000, 540_000_000);
    let cams = vec![camera(7, 0, p, vp)];
    let mut active = ActiveCameraData::default();
    active.entity = Some(42);
    active_viewport_data_system(
        &mut active,
        &ButtonInput::none(),
        &ButtonInput::none(),
        false,
        &TouchState::none(),
        &cams,
        &EguiWantsFocus::default(),
    );
    assert_eq!(active.entity, Some(42));
}

#[test]
fn arbiter_never_touches_manual_data() {
    let p = Some(Vec2Fx { x: 100_000_000, y: 100_000_000 });
    let vp = rect(0, 0, 960_000_000, 540_000_000);
    let cams = vec![camera(7, 0, p, vp)];
    let mut active = ActiveCameraData::default();
    active.manual = true;
    active.entity = Some(42);
    active_viewport_data_system(
        &mut active,
        &middle_pressed(),
        &ButtonInput::none(),
        true,
        &TouchState::none(),
        &cams,
        &EguiWantsFocus::default(),
    );
    assert!(active.manual);
    assert_eq!(active.entity, Some(42));
}

#[test]
fn gui_focus_suppresses_selection() {
    let p = Some(Vec2Fx { x: 100_000_000, y: 100_000_000 });
    let vp = rect(0, 0, 960_000_000, 540_000_000);
    let cams = vec![camera(7, 0, p, vp)];
    let mut active = ActiveCameraData::default();
    active.entity = Some(42);
    let egui = EguiWantsFocus { prev: false, curr: true };
    active_viewport_data_system(
        &mut active,
        &middle_pressed(),
        &ButtonInput::none(),
        false,
        &TouchState::none(),
        &cams,
        &egui,
    );
    // Input arrived but the GUI ate it: the record is cleared rather
    // than handed to a camera.
    assert_eq!(active.entity, None);
}

#[test]
fn scroll_alone_activates() {
    let p = Some(Vec2Fx { x: 100_000_000, y: 100_000_000 });
    let vp = rect(0, 0, 960_000_000, 540_000_000);
    let cams = vec![camera(7, 0, p, vp)];
    let mut active = ActiveCameraData::default();
    active_viewport_data_system(
        &mut active,
        &ButtonInput::none(),
        &ButtonInput::none(),
        true,
        &TouchState::none(),
        &cams,
        &EguiWantsFocus::default(),
    );
    assert_eq!(active.entity, Some(7));
}

#[test]
fn drag_start_locks_and_wrap_reflects_at_edges() {
    let orbit = OrbitCameraController::default();
    let vp = rect(0, 0, 960_000_000, 540_000_000);
    let mut start: Option<Vec2Fx> = None;
    // Frame 1: the drag begins inside the viewport; the cursor locks.
    let acts = wrap_grab_center_cursor_system(
        Some(&orbit),
        None,
        &middle_pressed(),
        &ButtonInput::none(),
        vp,
        Some(Vec2Fx { x: 100_000_000, y: 100_000_000 }),
        &mut start,
    );
    assert_eq!(acts.grab, Some(CursorGrab::Locked));
    assert_eq!(start, Some(Vec2Fx { x: 100_000_000, y: 100_000_000 }));
    // Frame 2: still dragging, the cursor reached the right edge; it
    // teleports to the left edge.
    let held = ButtonInput {
        pressed: vec![MOUSE_BUTTON_MIDDLE],
        just_pressed: vec![],
        just_released: vec![],
    };
    let acts = wrap_grab_center_cursor_system(
        Some(&orbit),
        None,
        &held,
        &ButtonInput::none(),
        vp,
        Some(Vec2Fx { x: 960_000_000, y: 200_000_000 }),
        &mut start,
    );
    assert_eq!(acts.set_position, Some(Vec2Fx { x: 0, y: 200_000_000 }));
    // Frame 3: the drag ends; the record clears and the lock releases.
    let released = ButtonInput {
        pressed: vec![],
        just_pressed: vec![],
        just_released: vec![MOUSE_BUTTON_MIDDLE],
    };
    let acts = wrap_grab_center_cursor_system(
        Some(&orbit),
        None,
        &released,
        &ButtonInput::none(),
        vp,
        Some(Vec2Fx { x: 10_000_000, y: 200_000_000 }),
        &mut start,
    );
    assert_eq!(acts.grab, Some(CursorGrab::Released));
    assert_eq!(start, None);
}

#[test]
fn fly_drag_centers_the_cursor() {
    let fly = FlyCameraController::default();
    let vp = rect(0, 0, 960_000_000, 540_000_000);
    let mut start: Option<Vec2Fx> = None;
    let acts = wrap_grab_center_cursor_system(
        None,
        Some(&fly),
        &middle_pressed(),
        &ButtonInput::none(),
        vp,
        Some(Vec2Fx { x: 100_000_000, y: 100_000_000 }),
        &mut start,
    );
    assert_eq!(acts.grab, Some(CursorGrab::Locked));
    assert!(acts.winit_lock);
    assert_eq!(acts.set_position, Some(Vec2Fx { x: 480_000_000, y: 270_000_000 }));
}
