//! Frame-to-bounds: repositioning a camera so that a set of bounding
//! boxes fits in view.
//!
//! The host resolves the requested entities (and, when asked, their
//! descendants) to world-space axis-aligned bounding boxes; the library
//! merges them, derives the framing focus and distance, and drives the
//! controllers there.

use vstd::prelude::*;

use crate::fly::FlyCameraController;
use crate::fx::FX_MAX;
use crate::fx::MIN_RADIUS;
use crate::fx::clamp_spec;
use crate::fx::fx_clamp;
use crate::fx::fx_half;
use crate::fx::fx_max;
use crate::fx::fx_min;
use crate::fx::half_spec;
use crate::fx::max_spec;
use crate::fx::min_spec;
use crate::linalg::V3;
use crate::linalg::Vec3Fx;
use crate::linalg::bounded3;
use crate::linalg::clamp3;
use crate::linalg::clamp3_spec;
use crate::linalg::v3_add;
use crate::linalg::v3_add_spec;
use crate::linalg::v3_length;
use crate::linalg::v3_length_spec;
use crate::linalg::v3_sub_spec;
use crate::orbit::OrbitCameraController;
use crate::orbit::initialize_spec;
use crate::utils::CameraProjection;
use crate::utils::CameraTransform;
use crate::utils::TransformV;
use crate::utils::transform_back;
use crate::utils::transform_back_spec;
use crate::utils::update_orbit_transform;
use crate::utils::update_orbit_transform_spec;
use crate::utils::wf_projection;
use crate::utils::wf_transform;

verus! {

/// A request to frame a set of entities into view, optionally with
/// their descendants.
#[derive(Debug, Clone)]
pub struct FrameEvent {
    pub entities: Vec<u64>,
    pub include_children: bool,
}

/// A world-space axis-aligned bounding box.
#[derive(Debug, Clone, Copy, PartialEq, Eq, Structural)]
pub struct Aabb {
    pub min: Vec3Fx,
    pub max: Vec3Fx,
}

pub open spec fn wf_aabb(b: Aabb) -> bool {
    bounded3(b.min@, FX_MAX as int) && bounded3(b.max@, FX_MAX as int)
}

pub open spec fn wf_aabbs(s: Seq<Aabb>) -> bool {
    forall|k: int| 0 <= k < s.len() ==> wf_aabb(#[trigger] s[k])
}

/// The componentwise union of bounding boxes, folded from a sentinel
/// whose minimum lies above its maximum; with no boxes the sentinel
/// survives and marks the bounds degenerate.
pub open spec fn merge_aabbs_spec(s: Seq<Aabb>) -> (V3, V3)
    decreases s.len(),
{
    if s.len() == 0 {
        (
            V3 { x: FX_MAX as int, y: FX_MAX as int, z: FX_MAX as int },
            V3 { x: -(FX_MAX as int), y: -(FX_MAX as int), z: -(FX_MAX as int) },
        )
    } else {
        let (mn, mx) = merge_aabbs_spec(s.drop_last());
        let b = s.last();
        (
            V3 {
                x: min_spec(mn.x, b.min@.x),
                y: min_spec(mn.y, b.min@.y),
                z: min_spec(mn.z, b.min@.z),
            },
            V3 {
                x: max_spec(mx.x, b.max@.x),
                y: max_spec(mx.y, b.max@.y),
                z: max_spec(mx.z, b.max@.z),
            },
        )
    }
}

proof fn lemma_merge_aabbs_bounded(s: Seq<Aabb>)
    requires
        wf_aabbs(s),
    ensures
        bounded3(merge_aabbs_spec(s).0, FX_MAX as int),
        bounded3(merge_aabbs_spec(s).1, FX_MAX as int),
    decreases s.len(),
{
    if s.len() > 0 {
        assert(wf_aabbs(s.drop_last())) by {
            assert(forall|k: int| 0 <= k < s.len() - 1 ==> s.drop_last()[k] == s[k]);
        }
        lemma_merge_aabbs_bounded(s.drop_last());
    }
}

/// Merge the world-space bounding boxes of the framed entities.
/// The result is (min, max); a minimum above the maximum on every axis
/// means no entity contributed bounds.
pub fn get_entities_aabb(boxes: &Vec<Aabb>) -> (r: (Vec3Fx, Vec3Fx))
    requires
        wf_aabbs(boxes@),
    ensures
        (r.0@, r.1@) == merge_aabbs_spec(boxes@),
        bounded3(r.0@, FX_MAX as int),
        bounded3(r.1@, FX_MAX as int),
{
    proof {
        lemma_merge_aabbs_bounded(boxes@);
    }
    let mut mn = Vec3Fx { x: FX_MAX, y: FX_MAX, z: FX_MAX };
    let mut mx = Vec3Fx { x: -FX_MAX, y: -FX_MAX, z: -FX_MAX };
    let mut i: usize = 0;
    while i < boxes.len()
        invariant
            wf_aabbs(boxes@),
            0 <= i <= boxes.len(),
            (mn@, mx@) == merge_aabbs_spec(boxes@.take(i as int)),
            bounded3(mn@, FX_MAX as int),
            bounded3(mx@, FX_MAX as int),
        decreases boxes.len() - i,
    {
        proof {
            assert(boxes@.take(i + 1).drop_last() =~= boxes@.take(i as int));
            assert(boxes@.take(i + 1).last() == boxes@[i as int]);
            lemma_merge_aabbs_bounded(boxes@.take(i + 1));
            assert(wf_aabbs(boxes@.take(i + 1))) by {
                assert(forall|k: int| 0 <= k < i + 1 ==> boxes@.take(i + 1)[k] == boxes@[k]);
            }
        }
        let b = boxes[i];
        mn = Vec3Fx {
            x: fx_min(mn.x, b.min.x),
            y: fx_min(mn.y, b.min.y),
            z: fx_min(mn.z, b.min.z),
        };
        mx = Vec3Fx {
            x: fx_max(mx.x, b.max.x),
            y: fx_max(mx.y, b.max.y),
            z: fx_max(mx.z, b.max.z),
        };
        i = i + 1;
    }
    proof {
        assert(boxes@.take(boxes@.len() as int) =~= boxes@);
    }
    (mn, mx)
}

/// The framing target of a set of bounds: the box center, and a camera
/// distance of 1.3 times the box diagonal (floored at the least radius
/// and capped at the coordinate range). Degenerate bounds — no box had
/// positive extent — give no target, and the cameras are left alone.
pub open spec fn frame_target_spec(mn: V3, mx: V3) -> Option<(V3, int)> {
    let diag = v3_sub_spec(mx, mn);
    if diag.x > 0 || diag.y > 0 || diag.z > 0 {
        let center = v3_add_spec(
            mn,
            V3 { x: half_spec(diag.x), y: half_spec(diag.y), z: half_spec(diag.z) },
        );
        let distance = clamp_spec(
            crate::fx::fx_mul_spec(v3_length_spec(diag), 1_300_000),
            MIN_RADIUS as int,
            FX_MAX as int,
        );
        Some((center, distance))
    } else {
        None
    }
}

/// Compute the framing focus and distance from merged bounds.
pub fn frame_target(mn: Vec3Fx, mx: Vec3Fx) -> (r: Option<(Vec3Fx, i64)>)
    requires
        bounded3(mn@, FX_MAX as int),
        bounded3(mx@, FX_MAX as int),
    ensures
        ({
            match (r, frame_target_spec(mn@, mx@)) {
                (Some(rv), Some(sv)) => rv.0@ == sv.0 && rv.1 as int == sv.1,
                (None, None) => true,
                _ => false,
            }
        }),
        r is Some ==> bounded3((r->0).0@, FX_MAX as int) && crate::utils::wf_radius((r->0).1 as int),
{
    let diag = Vec3Fx { x: mx.x - mn.x, y: mx.y - mn.y, z: mx.z - mn.z };
    if diag.x > 0 || diag.y > 0 || diag.z > 0 {
        let center = v3_add(
            mn,
            Vec3Fx { x: fx_half(diag.x), y: fx_half(diag.y), z: fx_half(diag.z) },
        );
        let len = v3_length(diag);
        proof {
            crate::fx::lemma_fx_mul_bound(len as int, 1_300_000, 6_000_000_000_000, 1_300_000);
        }
        let distance = fx_clamp(crate::fx::fx_mul(len, 1_300_000), MIN_RADIUS, FX_MAX);
        proof {
            assert(bounded3(center@, FX_MAX as int));
        }
        Some((center, distance))
    } else {
        None
    }
}

/// One camera's reaction to a framing target: an enabled orbit
/// controller re-focuses on the center at the framing distance
/// (initializing first if needed) and reapplies its transform; an
/// enabled fly camera backs away from the center along its current back
/// axis, keeping its orientation.
pub open spec fn frame_camera_spec(
    orbit: Option<OrbitCameraController>,
    fly: Option<FlyCameraController>,
    t: TransformV,
    proj: CameraProjection,
    center: V3,
    distance: int,
) -> (Option<OrbitCameraController>, TransformV, CameraProjection) {
    let (orbit1, t1, p1) = if orbit is Some && orbit->0.is_enabled {
        let c0 = OrbitCameraController {
            focus: crate::linalg::vec_of_v3(center),
            radius: Some(distance as i64),
            ..orbit->0
        };
        let (c1, ti, pi) = initialize_spec(c0, t, proj);
        let (t2, p2) = update_orbit_transform_spec(
            c1.yaw->0 as int,
            c1.pitch->0 as int,
            c1.radius->0 as int,
            c1.focus@,
            pi,
        );
        (Some(c1), t2, p2)
    } else {
        (orbit, t, proj)
    };
    if fly is Some && fly->0.is_enabled {
        let back = transform_back_spec(t1);
        let pos = clamp3_spec(
            v3_add_spec(center, crate::linalg::v3_scale_clamped_spec(back, distance)),
            2 * FX_MAX,
        );
        (orbit1, TransformV { position: pos, yaw: t1.yaw, pitch: t1.pitch }, p1)
    } else {
        (orbit1, t1, p1)
    }
}

/// Apply a framing target to one camera.
pub fn frame_system(
    orbit: &mut Option<OrbitCameraController>,
    fly: &mut Option<FlyCameraController>,
    transform: &mut CameraTransform,
    projection: &mut CameraProjection,
    center: Vec3Fx,
    distance: i64,
)
    requires
        (*old(orbit)) is Some ==> (*old(orbit))->0.wf(),
        wf_transform(old(transform)@),
        wf_projection(*old(projection)),
        bounded3(center@, FX_MAX as int),
        crate::utils::wf_radius(distance as int),
    ensures
        ({
            let (so, st, sp) = frame_camera_spec(
                *old(orbit),
                *old(fly),
                old(transform)@,
                *old(projection),
                center@,
                distance as int,
            );
            *final(orbit) == so && final(transform)@ == st && *final(projection) == sp
                && *final(fly) == *old(fly)
        }),
        (*final(orbit)) is Some ==> (*final(orbit))->0.wf(),
        wf_transform(final(transform)@),
        wf_projection(*final(projection)),
{
    let run_orbit = match orbit {
        Some(c) => c.is_enabled,
        None => false,
    };
    if run_orbit {
        let mut c0 = match *orbit {
            Some(c) => c,
            None => unreached(),
        };
        c0.focus = center;
        c0.radius = Some(distance);
        c0.initialize_if_necessary(transform, projection);
        let yaw = match c0.yaw {
            Some(v) => v,
            None => unreached(),
        };
        let pitch = match c0.pitch {
            Some(v) => v,
            None => unreached(),
        };
        let radius = match c0.radius {
            Some(v) => v,
            None => unreached(),
        };
        update_orbit_transform(yaw, pitch, radius, c0.focus, transform, projection);
        *orbit = Some(c0);
    }
    let run_fly = match fly {
        Some(c) => c.is_enabled,
        None => false,
    };
    if run_fly {
        let back = transform_back(transform);
        transform.position = clamp3(
            v3_add(center, crate::linalg::v3_scale_clamped(back, distance)),
            2 * FX_MAX,
        );
    }
}

} // verus!
