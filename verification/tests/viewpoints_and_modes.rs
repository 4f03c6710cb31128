//! Viewpoint snapping, the viewpoint round trip, mode switching and
//! projection toggling.

use blendy_cameras::fly::FlyCameraController;
use blendy_cameras::fx::{FX_HALF_PI, FX_PI};
use blendy_cameras::linalg::Vec3Fx;
use blendy_cameras::orbit::OrbitCameraController;
use blendy_cameras::utils::{
    calculate_from_translation_and_focus, CameraProjection, CameraTransform, OrthographicParams,
    PerspectiveParams,
};
use blendy_cameras::viewpoints::{viewpoint_system, Viewpoint};
use blendy_cameras::{
    switch_camera_projection_system, switch_to_fly_camera_controller_system,
    switch_to_orbit_camera_controller_system, ControlError,
};

fn stock_perspective() -> CameraProjection {
    CameraProjection::Perspective(PerspectiveParams {
        fov: 785_398,
        aspect_ratio: 1_777_777,
        near: 100_000,
        far: 1_000_000_000,
    })
}

fn stock_orthographic() -> CameraProjection {
    CameraProjection::Orthographic(OrthographicParams {
        scale: 1_000_000,
        area_width: 16_000_000,
        area_height: 9_000_000,
        near: 0,
        far: 1_000_000_000,
    })
}

#[test]
fn viewpoint_table_round_trips() {
    let all = [
        Viewpoint::Top,
        Viewpoint::Bottom,
        Viewpoint::Front,
        Viewpoint::Back,
        Viewpoint::Left,
        Viewpoint::Right,
    ];
    for &v in all.iter() {
        let (yaw, pitch) = v.to_yaw_pitch();
        assert_eq!(Viewpoint::from_yaw_pitch(yaw, pitch), Some(v));
    }
    assert_eq!(Viewpoint::Top.to_yaw_pitch(), (0, FX_HALF_PI));
    assert_eq!(Viewpoint::from_yaw_pitch(0, FX_HALF_PI), Some(Viewpoint::Top));
    assert_eq!(Viewpoint::from_yaw_pitch(-FX_PI, 0), Some(Viewpoint::Back));
}

#[test]
fn off_axis_orientation_is_no_viewpoint() {
    assert_eq!(Viewpoint::from_yaw_pitch(700_000, 200_000), None);
    let t = CameraTransform {
        position: Vec3Fx { x: 0, y: 0, z: 0 },
        yaw: 700_000,
        pitch: -200_000,
    };
    assert_eq!(Viewpoint::from_transform(&t), None);
}

#[test]
fn viewpoint_front_resets_fly_rotation() {
    // Whatever the prior orientation, a fly camera snapped to the front
    // viewpoint ends in the identity orientation.
    let mut orbit: Option<OrbitCameraController> = None;
    let fly = Some(FlyCameraController::default());
    let mut t = CameraTransform {
        position: Vec3Fx { x: 1_000_000, y: 2_000_000, z: 3_000_000 },
        yaw: -2_345_678,
        pitch: 456_789,
    };
    let mut p = stock_perspective();
    viewpoint_system(Viewpoint::Front, &mut orbit, &fly, &mut t, &mut p);
    assert_eq!(t.yaw, 0);
    assert_eq!(t.pitch, 0);
    assert_eq!(t.position, Vec3Fx { x: 1_000_000, y: 2_000_000, z: 3_000_000 });
}

#[test]
fn viewpoint_snaps_orbit_camera() {
    let mut c = OrbitCameraController::default();
    c.radius = Some(5_000_000);
    c.is_initialized = true;
    c.yaw = Some(300_000);
    c.pitch = Some(-200_000);
    let mut orbit = Some(c);
    let fly: Option<FlyCameraController> = None;
    let mut t = CameraTransform { position: Vec3Fx { x: 0, y: 0, z: 0 }, yaw: 0, pitch: 0 };
    let mut p = stock_perspective();
    viewpoint_system(Viewpoint::Top, &mut orbit, &fly, &mut t, &mut p);
    let c = orbit.unwrap();
    assert_eq!(c.yaw, Some(0));
    assert_eq!(c.pitch, Some(FX_HALF_PI));
    // The camera now sits straight above its focus.
    assert_eq!(t.position, Vec3Fx { x: 0, y: 5_000_000, z: 0 });
}

#[test]
fn mode_switches_keep_exactly_one_controller_enabled() {
    let mut orbit = OrbitCameraController::default();
    orbit.radius = Some(2_000_000);
    orbit.yaw = Some(0);
    orbit.pitch = Some(0);
    orbit.is_initialized = true;
    let mut fly = FlyCameraController::default();
    fly.is_enabled = false;
    let mut t = CameraTransform { position: Vec3Fx { x: 0, y: 0, z: 0 }, yaw: 0, pitch: 0 };
    let mut p = stock_perspective();
    let mut saved = stock_orthographic();
    // to fly, to fly again (no-op), to orbit, to orbit again (no-op)...
    let script = [true, true, false, false, true, false];
    for &to_fly in script.iter() {
        if to_fly {
            switch_to_fly_camera_controller_system(
                &mut t, &mut orbit, &mut fly, &mut p, &mut saved,
            )
            .unwrap();
        } else {
            switch_to_orbit_camera_controller_system(&t, &mut orbit, &mut fly).unwrap();
        }
        assert!(orbit.is_enabled != fly.is_enabled, "both or neither enabled");
    }
}

#[test]
fn switch_to_orbit_without_radius_is_an_error() {
    let mut orbit = OrbitCameraController::default();
    orbit.is_enabled = false;
    orbit.radius = None;
    let mut fly = FlyCameraController::default();
    let t = CameraTransform { position: Vec3Fx { x: 0, y: 0, z: 0 }, yaw: 0, pitch: 0 };
    let r = switch_to_orbit_camera_controller_system(&t, &mut orbit, &mut fly);
    assert_eq!(r, Err(ControlError::OrbitStateUninitialized));
    // The request left the camera untouched.
    assert!(fly.is_enabled);
    assert!(!orbit.is_enabled);
}

#[test]
fn switch_to_orbit_reads_pose_from_transform() {
    let mut orbit = OrbitCameraController::default();
    orbit.is_enabled = false;
    orbit.radius = Some(3_000_000);
    let mut fly = FlyCameraController::default();
    let t = CameraTransform {
        position: Vec3Fx { x: 0, y: 0, z: 3_000_000 },
        yaw: 0,
        pitch: 0,
    };
    switch_to_orbit_camera_controller_system(&t, &mut orbit, &mut fly).unwrap();
    assert!(orbit.is_enabled && !fly.is_enabled);
    assert_eq!(orbit.yaw, Some(0));
    assert_eq!(orbit.pitch, Some(0));
    // The focus lands one radius ahead of the camera: at the origin.
    assert_eq!(orbit.focus, Vec3Fx { x: 0, y: 0, z: 0 });
}

#[test]
fn switch_to_fly_forces_perspective() {
    let mut orbit = OrbitCameraController::default();
    orbit.radius = Some(2_000_000);
    orbit.yaw = Some(0);
    orbit.pitch = Some(0);
    orbit.is_initialized = true;
    let mut fly = FlyCameraController::default();
    fly.is_enabled = false;
    let mut t = CameraTransform { position: Vec3Fx { x: 0, y: 0, z: 0 }, yaw: 0, pitch: 0 };
    let mut p = stock_orthographic();
    let mut saved = stock_perspective();
    switch_to_fly_camera_controller_system(&mut t, &mut orbit, &mut fly, &mut p, &mut saved)
        .unwrap();
    assert!(fly.is_enabled && !orbit.is_enabled);
    assert_eq!(p, stock_perspective());
    // The outgoing orthographic projection is cached exactly as it
    // was, for the switch back.
    assert_eq!(saved, stock_orthographic());
}

#[test]
fn projection_switch_round_trips_through_the_cache() {
    // The scenario: a camera at (0, 1.5, 5) looking at the origin.
    let position = Vec3Fx { x: 0, y: 1_500_000, z: 5_000_000 };
    let focus = Vec3Fx { x: 0, y: 0, z: 0 };
    let (yaw, pitch, radius) = calculate_from_translation_and_focus(position, focus);
    assert_eq!(radius, 5_220_153);  // about 5.22 units
    let mut orbit = OrbitCameraController::default();
    orbit.yaw = Some(yaw);
    orbit.pitch = Some(pitch);
    orbit.radius = Some(radius);
    orbit.focus = focus;
    orbit.is_initialized = true;
    let mut t = CameraTransform { position, yaw, pitch: -pitch };
    let mut p = stock_perspective();
    let mut saved = stock_orthographic();
    switch_camera_projection_system(&mut t, &orbit, &mut p, &mut saved).unwrap();
    // The orthographic projection is now active, scaled by the
    // pre-switch radius; the perspective is cached.
    match p {
        CameraProjection::Orthographic(op) => assert_eq!(op.scale, 5_220_153),
        CameraProjection::Perspective(_) => panic!("still perspective"),
    }
    assert_eq!(saved, stock_perspective());
    switch_camera_projection_system(&mut t, &orbit, &mut p, &mut saved).unwrap();
    // The original perspective comes back exactly: cached, not
    // recomputed.
    assert_eq!(p, stock_perspective());
}

#[test]
fn projection_switch_is_ignored_in_fly_mode() {
    let mut orbit = OrbitCameraController::default();
    orbit.is_enabled = false;
    let mut t = CameraTransform { position: Vec3Fx { x: 0, y: 0, z: 0 }, yaw: 0, pitch: 0 };
    let mut p = stock_perspective();
    let mut saved = stock_orthographic();
    switch_camera_projection_system(&mut t, &orbit, &mut p, &mut saved).unwrap();
    assert_eq!(p, stock_perspective());
    assert_eq!(saved, stock_orthographic());
}
