//! Orbit geometry: transform construction, the projection-aware
//! update, the bootstrap round trip and the fixed tolerance.

use blendy_cameras::fx::{FX_HALF_PI, FX_ONE, FX_PI};
use blendy_cameras::linalg::Vec3Fx;
use blendy_cameras::utils::{
    approx_equal, calculate_from_translation_and_focus, camera_transform_form_orbit,
    update_orbit_transform, CameraProjection, CameraTransform, OrthographicParams,
    PerspectiveParams,
};

fn to_f64(v: i64) -> f64 {
    v as f64 / 1_000_000.0
}

fn stock_perspective() -> CameraProjection {
    CameraProjection::Perspective(PerspectiveParams {
        fov: 785_398,
        aspect_ratio: 1_777_777,
        near: 100_000,
        far: 1_000_000_000,
    })
}

fn stock_orthographic() -> CameraProjection {
    CameraProjection::Orthographic(OrthographicParams {
        scale: 1_000_000,
        area_width: 16_000_000,
        area_height: 9_000_000,
        near: 0,
        far: 1_000_000_000,
    })
}

#[test]
fn transform_from_identity_orbit_sits_behind_focus() {
    let focus = Vec3Fx { x: 1_000_000, y: 2_000_000, z: 3_000_000 };
    let t = camera_transform_form_orbit(0, 0, 4_000_000, focus);
    assert_eq!(t.position, Vec3Fx { x: 1_000_000, y: 2_000_000, z: 7_000_000 });
    assert_eq!(t.yaw, 0);
    assert_eq!(t.pitch, 0);
}

#[test]
fn transform_from_top_orbit_sits_above_focus() {
    let focus = Vec3Fx { x: 0, y: 0, z: 0 };
    let t = camera_transform_form_orbit(0, FX_HALF_PI, 2_000_000, focus);
    assert_eq!(t.position, Vec3Fx { x: 0, y: 2_000_000, z: 0 });
    assert_eq!(t.pitch, -FX_HALF_PI);
}

#[test]
fn update_orbit_transform_is_idempotent() {
    let focus = Vec3Fx { x: 500_000, y: -250_000, z: 0 };
    let mut t1 = CameraTransform { position: Vec3Fx { x: 0, y: 0, z: 0 }, yaw: 0, pitch: 0 };
    let mut p1 = stock_orthographic();
    update_orbit_transform(300_000, -400_000, 2_500_000, focus, &mut t1, &mut p1);
    let mut t2 = t1;
    let mut p2 = p1;
    update_orbit_transform(300_000, -400_000, 2_500_000, focus, &mut t2, &mut p2);
    assert_eq!(t1, t2);
    assert_eq!(p1, p2);
}

#[test]
fn update_orbit_transform_scales_orthographic_by_radius() {
    let focus = Vec3Fx { x: 0, y: 0, z: 0 };
    let mut t = CameraTransform { position: Vec3Fx { x: 0, y: 0, z: 0 }, yaw: 0, pitch: 0 };
    let mut p = stock_orthographic();
    update_orbit_transform(0, 0, 7_500_000, focus, &mut t, &mut p);
    match p {
        CameraProjection::Orthographic(op) => {
            assert_eq!(op.scale, 7_500_000);
            assert_eq!(op.near, 0);
            assert_eq!(op.far, 1_000_000_000);
        }
        CameraProjection::Perspective(_) => panic!("projection kind changed"),
    }
    // The camera sits at the middle of the near-far span, not at the
    // orbit radius.
    assert_eq!(t.position.z, 500_000_000);
}

#[test]
fn update_orbit_transform_keeps_perspective_radius() {
    let focus = Vec3Fx { x: 0, y: 0, z: 0 };
    let mut t = CameraTransform { position: Vec3Fx { x: 0, y: 0, z: 0 }, yaw: 0, pitch: 0 };
    let mut p = stock_perspective();
    update_orbit_transform(0, 0, 7_500_000, focus, &mut t, &mut p);
    assert_eq!(p, stock_perspective());
    assert_eq!(t.position.z, 7_500_000);
}

#[test]
fn bootstrap_recovers_canonical_orientations() {
    let focus = Vec3Fx { x: 250_000, y: -1_000_000, z: 3_000_000 };
    let cases: [(i64, i64); 5] = [
        (0, 0),
        (FX_HALF_PI, 0),
        (FX_PI, 0),
        (0, FX_HALF_PI),
        (0, -FX_HALF_PI),
    ];
    for &(yaw, pitch) in cases.iter() {
        let radius = 2_500_000;
        let t = camera_transform_form_orbit(yaw, pitch, radius, focus);
        let (y2, p2, r2) = calculate_from_translation_and_focus(t.position, focus);
        assert!((y2 - yaw).abs() <= 1_000, "yaw {yaw}: got {y2}");
        assert_eq!(p2, pitch, "pitch {pitch}");
        assert_eq!(r2, radius, "radius for yaw {yaw} pitch {pitch}");
    }
}

#[test]
fn bootstrap_round_trip_holds_numerically() {
    // General orientations, within the tolerance; yaws stay in [0, pi]
    // because the bootstrap keeps no yaw sign. The radii stay moderate:
    // the recovered radius carries the trigonometric quantization
    // scaled by the radius itself, so very distant cameras exceed the
    // absolute tolerance (while staying within it relatively).
    let focus = Vec3Fx { x: 0, y: 0, z: 0 };
    let yaws: [i64; 4] = [300_000, 1_000_000, 2_000_000, 3_000_000];
    let pitches: [i64; 3] = [-1_200_000, 0, 900_000];
    let radii: [i64; 3] = [500_000, 2_000_000, 10_000_000];
    for &yaw in yaws.iter() {
        for &pitch in pitches.iter() {
            for &radius in radii.iter() {
                let t = camera_transform_form_orbit(yaw, pitch, radius, focus);
                let (y2, p2, r2) = calculate_from_translation_and_focus(t.position, focus);
                assert!(
                    (to_f64(y2) - to_f64(yaw)).abs() < 1e-3,
                    "yaw {yaw} pitch {pitch} radius {radius}: yaw back {y2}"
                );
                assert!(
                    (to_f64(p2) - to_f64(pitch)).abs() < 1e-3,
                    "yaw {yaw} pitch {pitch} radius {radius}: pitch back {p2}"
                );
                assert!(
                    (to_f64(r2) - to_f64(radius)).abs() < 1e-3,
                    "yaw {yaw} pitch {pitch} radius {radius}: radius back {r2}"
                );
            }
        }
    }
}

#[test]
fn bootstrap_loses_negative_yaw() {
    // A known ambiguity: the bootstrap measures the yaw through an arc
    // cosine, which keeps no sign, so a negative yaw comes back as its
    // mirror image.
    let focus = Vec3Fx { x: 0, y: 0, z: 0 };
    let t = camera_transform_form_orbit(-FX_HALF_PI, 0, 2_000_000, focus);
    let (y2, _, _) = calculate_from_translation_and_focus(t.position, focus);
    assert!((y2 - FX_HALF_PI).abs() <= 1_000);
}

#[test]
fn bootstrap_floors_tiny_radii() {
    let focus = Vec3Fx { x: 0, y: 0, z: 0 };
    let translation = Vec3Fx { x: 0, y: 0, z: 10_000 };
    let (_, _, r) = calculate_from_translation_and_focus(translation, focus);
    assert_eq!(r, 50_000);
}

#[test]
fn approx_equal_uses_the_fixed_tolerance() {
    assert!(approx_equal(0, 999));
    assert!(!approx_equal(0, 1_000));
    assert!(approx_equal(-500, 499));
    assert!(!approx_equal(FX_ONE, FX_ONE + 1_000));
}
