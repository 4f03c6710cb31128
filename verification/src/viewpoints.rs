//! Canonical viewpoints (view from top, bottom, front, back, left,
//! right) and their correspondence with orbit yaw and pitch.

use vstd::prelude::*;

use crate::fx::FX_HALF_PI;
use crate::fx::FX_MAX;
use crate::fx::FX_PI;
use crate::fx::abs_spec;
use crate::utils::CameraTransform;
use crate::utils::approx_equal;
use crate::utils::approx_equal_spec;

verus! {

/// A canonical axis-aligned viewpoint.
#[derive(Debug, Copy, Clone, PartialEq, Eq, Structural)]
pub enum Viewpoint {
    Top,
    Bottom,
    Front,
    Back,
    Left,
    Right,
}

/// The orbit yaw and pitch of each canonical viewpoint.
pub open spec fn to_yaw_pitch_spec(v: Viewpoint) -> (int, int) {
    match v {
        Viewpoint::Top => (0, FX_HALF_PI as int),
        Viewpoint::Bottom => (0, -(FX_HALF_PI as int)),
        Viewpoint::Front => (0, 0),
        Viewpoint::Back => (FX_PI as int, 0),
        Viewpoint::Left => (-(FX_HALF_PI as int), 0),
        Viewpoint::Right => (FX_HALF_PI as int, 0),
    }
}

/// The canonical viewpoint matching a yaw and pitch within the
/// library's tolerance, if any.
pub open spec fn from_yaw_pitch_spec(yaw: int, pitch: int) -> Option<Viewpoint> {
    if approx_equal_spec(yaw, 0) && approx_equal_spec(pitch, FX_HALF_PI as int) {
        Some(Viewpoint::Top)
    } else if approx_equal_spec(yaw, 0) && approx_equal_spec(pitch, -(FX_HALF_PI as int)) {
        Some(Viewpoint::Bottom)
    } else if approx_equal_spec(yaw, 0) && approx_equal_spec(pitch, 0) {
        Some(Viewpoint::Front)
    } else if (approx_equal_spec(yaw, FX_PI as int) || approx_equal_spec(yaw, -(FX_PI as int)))
        && approx_equal_spec(pitch, 0) {
        Some(Viewpoint::Back)
    } else if approx_equal_spec(yaw, -(FX_HALF_PI as int)) && approx_equal_spec(pitch, 0) {
        Some(Viewpoint::Left)
    } else if approx_equal_spec(yaw, FX_HALF_PI as int) && approx_equal_spec(pitch, 0) {
        Some(Viewpoint::Right)
    } else {
        None
    }
}

impl Viewpoint {
    /// The orbit yaw and pitch this viewpoint stands for.
    pub fn to_yaw_pitch(self) -> (r: (i64, i64))
        ensures
            (r.0 as int, r.1 as int) == to_yaw_pitch_spec(self),
    {
        match self {
            Self::Top => (0, FX_HALF_PI),
            Self::Bottom => (0, -FX_HALF_PI),
            Self::Front => (0, 0),
            Self::Back => (FX_PI, 0),
            Self::Left => (-FX_HALF_PI, 0),
            Self::Right => (FX_HALF_PI, 0),
        }
    }

    /// The canonical viewpoint a yaw and pitch match within tolerance;
    /// an orientation matching none classifies as no viewpoint rather
    /// than an error.
    pub fn from_yaw_pitch(yaw: i64, pitch: i64) -> (r: Option<Self>)
        requires
            abs_spec(yaw as int) <= 4_000_000_000_000_000_000,
            abs_spec(pitch as int) <= 4_000_000_000_000_000_000,
        ensures
            r == from_yaw_pitch_spec(yaw as int, pitch as int),
    {
        if approx_equal(yaw, 0) && approx_equal(pitch, FX_HALF_PI) {
            Some(Self::Top)
        } else if approx_equal(yaw, 0) && approx_equal(pitch, -FX_HALF_PI) {
            Some(Self::Bottom)
        } else if approx_equal(yaw, 0) && approx_equal(pitch, 0) {
            Some(Self::Front)
        } else if (approx_equal(yaw, FX_PI) || approx_equal(yaw, -FX_PI)) && approx_equal(
            pitch,
            0,
        ) {
            Some(Self::Back)
        } else if approx_equal(yaw, -FX_HALF_PI) && approx_equal(pitch, 0) {
            Some(Self::Left)
        } else if approx_equal(yaw, FX_HALF_PI) && approx_equal(pitch, 0) {
            Some(Self::Right)
        } else {
            None
        }
    }

    /// The canonical viewpoint a camera transform looks from, if any.
    /// The transform's pitch angle is the negated orbit pitch.
    pub fn from_transform(transform: &CameraTransform) -> (r: Option<Self>)
        requires
            abs_spec(transform.yaw as int) <= FX_MAX,
            abs_spec(transform.pitch as int) <= FX_MAX,
        ensures
            r == from_yaw_pitch_spec(transform.yaw as int, -(transform.pitch as int)),
    {
        Self::from_yaw_pitch(transform.yaw, -transform.pitch)
    }
}

/// Round trip of the viewpoint table: mapping a canonical viewpoint to
/// its yaw and pitch and classifying that pair gives the viewpoint back.
pub proof fn lemma_viewpoint_round_trip(v: Viewpoint)
    ensures
        ({
            let (yaw, pitch) = to_yaw_pitch_spec(v);
            from_yaw_pitch_spec(yaw, pitch) == Some(v)
        }),
{
}

/// A request to snap a camera to a canonical viewpoint.
#[derive(Debug, Clone, Copy, PartialEq, Eq, Structural)]
pub struct ViewpointEvent(pub Viewpoint);

/// One camera's reaction to a viewpoint request: an enabled orbit
/// controller takes the viewpoint's yaw and pitch (initializing first
/// if needed) and reapplies its transform; an enabled fly camera sets
/// its orientation to the viewpoint directly, with no roll.
pub open spec fn viewpoint_camera_spec(
    vp: Viewpoint,
    orbit: Option<crate::orbit::OrbitCameraController>,
    fly: Option<crate::fly::FlyCameraController>,
    t: crate::utils::TransformV,
    proj: crate::utils::CameraProjection,
) -> (Option<crate::orbit::OrbitCameraController>, crate::utils::TransformV, crate::utils::CameraProjection) {
    let (vy, vpp) = to_yaw_pitch_spec(vp);
    let (orbit1, t1, p1) = if orbit is Some && orbit->0.is_enabled {
        let c0 = crate::orbit::OrbitCameraController {
            yaw: Some(vy as i64),
            pitch: Some(vpp as i64),
            ..orbit->0
        };
        let (c1, ti, pi) = crate::orbit::initialize_spec(c0, t, proj);
        let (t2, p2) = crate::utils::update_orbit_transform_spec(
            c1.yaw->0 as int,
            c1.pitch->0 as int,
            c1.radius->0 as int,
            c1.focus@,
            pi,
        );
        (Some(c1), t2, p2)
    } else {
        (orbit, t, proj)
    };
    if fly is Some && fly->0.is_enabled {
        (
            orbit1,
            crate::utils::TransformV { position: t1.position, yaw: vy, pitch: -vpp },
            p1,
        )
    } else {
        (orbit1, t1, p1)
    }
}

/// Apply a viewpoint request to one camera.
pub fn viewpoint_system(
    vp: Viewpoint,
    orbit: &mut Option<crate::orbit::OrbitCameraController>,
    fly: &Option<crate::fly::FlyCameraController>,
    transform: &mut crate::utils::CameraTransform,
    projection: &mut crate::utils::CameraProjection,
)
    requires
        (*old(orbit)) is Some ==> (*old(orbit))->0.wf(),
        crate::utils::wf_transform(old(transform)@),
        crate::utils::wf_projection(*old(projection)),
    ensures
        ({
            let (so, st, sp) = viewpoint_camera_spec(
                vp,
                *old(orbit),
                *fly,
                old(transform)@,
                *old(projection),
            );
            *final(orbit) == so && final(transform)@ == st && *final(projection) == sp
        }),
        (*final(orbit)) is Some ==> (*final(orbit))->0.wf(),
        crate::utils::wf_transform(final(transform)@),
        crate::utils::wf_projection(*final(projection)),
{
    let (vy, vpp) = vp.to_yaw_pitch();
    let run_orbit = match orbit {
        Some(c) => c.is_enabled,
        None => false,
    };
    if run_orbit {
        let mut c0 = match *orbit {
            Some(c) => c,
            None => unreached(),
        };
        c0.yaw = Some(vy);
        c0.pitch = Some(vpp);
        c0.initialize_if_necessary(transform, projection);
        let yaw = match c0.yaw {
            Some(v) => v,
            None => unreached(),
        };
        let pitch = match c0.pitch {
            Some(v) => v,
            None => unreached(),
        };
        let radius = match c0.radius {
            Some(v) => v,
            None => unreached(),
        };
        crate::utils::update_orbit_transform(
            yaw,
            pitch,
            radius,
            c0.focus,
            transform,
            projection,
        );
        *orbit = Some(c0);
    }
    let run_fly = match fly {
        Some(c) => c.is_enabled,
        None => false,
    };
    if run_fly {
        transform.yaw = vy;
        transform.pitch = -vpp;
    }
}

/// Law: snapping a fly camera to the front viewpoint always gives the
/// identity orientation (zero yaw, zero pitch, and the library's
/// transforms carry no roll), whatever the prior orientation.
pub proof fn lemma_viewpoint_front_fly_identity(
    fly: crate::fly::FlyCameraController,
    t: crate::utils::TransformV,
    proj: crate::utils::CameraProjection,
)
    requires
        fly.is_enabled,
    ensures
        ({
            let (_, t1, _) = viewpoint_camera_spec(
                Viewpoint::Front,
                None,
                Some(fly),
                t,
                proj,
            );
            t1.yaw == 0 && t1.pitch == 0
        }),
{
}

} // verus!
