//! Per-frame input snapshots and their reduction to semantic deltas.
//!
//! The host polls its devices and hands the library, once per frame,
//! the sets of pressed / just-pressed / just-released button and key
//! identifiers, the accumulated mouse motion and the scroll events.
//! [`mouse_key_tracker_system`] reduces them to the orbit, pan, scroll
//! and rotate deltas the controllers consume, gated by which control
//! mode is active for the active camera.

use vstd::prelude::*;

use crate::fly::FlyCameraController;
use crate::fx::FX_INPUT_MAX;
use crate::fx::abs_spec;
use crate::fx::fx_mul;
use crate::fx::fx_mul_spec;
use crate::linalg::V2;
use crate::linalg::Vec2Fx;
use crate::linalg::bounded2;
use crate::orbit::OrbitCameraController;

verus! {

/// A per-frame snapshot of one class of buttons (mouse buttons or
/// keys): which identifiers are held, went down this frame, and went up
/// this frame.
#[derive(Debug, Clone)]
pub struct ButtonInput {
    pub pressed: Vec<u32>,
    pub just_pressed: Vec<u32>,
    pub just_released: Vec<u32>,
}

impl ButtonInput {
    pub open spec fn spec_pressed(&self, b: u32) -> bool {
        self.pressed@.contains(b)
    }

    pub open spec fn spec_just_pressed(&self, b: u32) -> bool {
        self.just_pressed@.contains(b)
    }

    pub open spec fn spec_just_released(&self, b: u32) -> bool {
        self.just_released@.contains(b)
    }

    /// An empty snapshot: nothing held, nothing edged.
    pub fn none() -> (r: ButtonInput)
        ensures
            r.pressed@ =~= Seq::<u32>::empty(),
            r.just_pressed@ =~= Seq::<u32>::empty(),
            r.just_released@ =~= Seq::<u32>::empty(),
    {
        ButtonInput { pressed: Vec::new(), just_pressed: Vec::new(), just_released: Vec::new() }
    }

    pub fn is_pressed(&self, b: u32) -> (r: bool)
        ensures
            r == self.spec_pressed(b),
    {
        contains_id(&self.pressed, b)
    }

    pub fn is_just_pressed(&self, b: u32) -> (r: bool)
        ensures
            r == self.spec_just_pressed(b),
    {
        contains_id(&self.just_pressed, b)
    }

    pub fn is_just_released(&self, b: u32) -> (r: bool)
        ensures
            r == self.spec_just_released(b),
    {
        contains_id(&self.just_released, b)
    }
}

/// Whether `ids` holds `b`.
fn contains_id(ids: &Vec<u32>, b: u32) -> (r: bool)
    ensures
        r == ids@.contains(b),
{
    let mut i: usize = 0;
    while i < ids.len()
        invariant
            0 <= i <= ids.len(),
            forall|k: int| 0 <= k < i ==> ids@[k] != b,
        decreases ids.len() - i,
    {
        if ids[i] == b {
            return true;
        }
        i = i + 1;
    }
    false
}

/// An optional modifier is satisfied when unset or held.
pub open spec fn modifier_held_spec(keys: &ButtonInput, modifier: Option<u32>) -> bool {
    match modifier {
        Some(m) => keys.spec_pressed(m),
        None => true,
    }
}

fn modifier_held(keys: &ButtonInput, modifier: Option<u32>) -> (r: bool)
    ensures
        r == modifier_held_spec(keys, modifier),
{
    match modifier {
        Some(m) => keys.is_pressed(m),
        None => true,
    }
}

/// The orbit drag is held: its button is down with its modifier, and
/// the pan modifier does not override it.
pub open spec fn orbit_pressed_spec(
    pan_orbit: OrbitCameraController,
    mouse: &ButtonInput,
    keys: &ButtonInput,
) -> bool {
    modifier_held_spec(keys, pan_orbit.modifier_orbit) && mouse.spec_pressed(pan_orbit.button_orbit)
        && !(pan_orbit.modifier_pan is Some && keys.spec_pressed(pan_orbit.modifier_pan->0))
}

pub fn orbit_pressed(
    pan_orbit: &OrbitCameraController,
    mouse_input: &ButtonInput,
    key_input: &ButtonInput,
) -> (r: bool)
    ensures
        r == orbit_pressed_spec(*pan_orbit, mouse_input, key_input),
{
    let is_pressed = modifier_held(key_input, pan_orbit.modifier_orbit) && mouse_input.is_pressed(
        pan_orbit.button_orbit,
    );
    is_pressed && !(match pan_orbit.modifier_pan {
        Some(m) => key_input.is_pressed(m),
        None => false,
    })
}

/// The orbit drag began this frame.
pub open spec fn orbit_just_pressed_spec(
    pan_orbit: OrbitCameraController,
    mouse: &ButtonInput,
    keys: &ButtonInput,
) -> bool {
    modifier_held_spec(keys, pan_orbit.modifier_orbit) && mouse.spec_just_pressed(
        pan_orbit.button_orbit,
    ) && !(pan_orbit.modifier_pan is Some && keys.spec_pressed(pan_orbit.modifier_pan->0))
}

pub fn orbit_just_pressed(
    pan_orbit: &OrbitCameraController,
    mouse_input: &ButtonInput,
    key_input: &ButtonInput,
) -> (r: bool)
    ensures
        r == orbit_just_pressed_spec(*pan_orbit, mouse_input, key_input),
{
    let just_pressed = modifier_held(key_input, pan_orbit.modifier_orbit)
        && mouse_input.is_just_pressed(pan_orbit.button_orbit);
    just_pressed && !(match pan_orbit.modifier_pan {
        Some(m) => key_input.is_pressed(m),
        None => false,
    })
}

/// The orbit drag ended this frame.
pub open spec fn orbit_just_released_spec(
    pan_orbit: OrbitCameraController,
    mouse: &ButtonInput,
    keys: &ButtonInput,
) -> bool {
    modifier_held_spec(keys, pan_orbit.modifier_orbit) && mouse.spec_just_released(
        pan_orbit.button_orbit,
    ) && !(pan_orbit.modifier_pan is Some && keys.spec_pressed(pan_orbit.modifier_pan->0))
}

pub fn orbit_just_released(
    pan_orbit: &OrbitCameraController,
    mouse_input: &ButtonInput,
    key_input: &ButtonInput,
) -> (r: bool)
    ensures
        r == orbit_just_released_spec(*pan_orbit, mouse_input, key_input),
{
    let just_released = modifier_held(key_input, pan_orbit.modifier_orbit)
        && mouse_input.is_just_released(pan_orbit.button_orbit);
    just_released && !(match pan_orbit.modifier_pan {
        Some(m) => key_input.is_pressed(m),
        None => false,
    })
}

/// The pan drag is held: its button is down with its modifier, and the
/// orbit modifier does not override it.
pub open spec fn pan_pressed_spec(
    pan_orbit: OrbitCameraController,
    mouse: &ButtonInput,
    keys: &ButtonInput,
) -> bool {
    modifier_held_spec(keys, pan_orbit.modifier_pan) && mouse.spec_pressed(pan_orbit.button_pan)
        && !(pan_orbit.modifier_orbit is Some && keys.spec_pressed(pan_orbit.modifier_orbit->0))
}

pub fn pan_pressed(
    pan_orbit: &OrbitCameraController,
    mouse_input: &ButtonInput,
    key_input: &ButtonInput,
) -> (r: bool)
    ensures
        r == pan_pressed_spec(*pan_orbit, mouse_input, key_input),
{
    let is_pressed = modifier_held(key_input, pan_orbit.modifier_pan) && mouse_input.is_pressed(
        pan_orbit.button_pan,
    );
    is_pressed && !(match pan_orbit.modifier_orbit {
        Some(m) => key_input.is_pressed(m),
        None => false,
    })
}

/// The pan drag began this frame.
pub open spec fn pan_just_pressed_spec(
    pan_orbit: OrbitCameraController,
    mouse: &ButtonInput,
    keys: &ButtonInput,
) -> bool {
    modifier_held_spec(keys, pan_orbit.modifier_pan) && mouse.spec_just_pressed(
        pan_orbit.button_pan,
    ) && !(pan_orbit.modifier_orbit is Some && keys.spec_pressed(pan_orbit.modifier_orbit->0))
}

pub fn pan_just_pressed(
    pan_orbit: &OrbitCameraController,
    mouse_input: &ButtonInput,
    key_input: &ButtonInput,
) -> (r: bool)
    ensures
        r == pan_just_pressed_spec(*pan_orbit, mouse_input, key_input),
{
    let just_pressed = modifier_held(key_input, pan_orbit.modifier_pan)
        && mouse_input.is_just_pressed(pan_orbit.button_pan);
    just_pressed && !(match pan_orbit.modifier_orbit {
        Some(m) => key_input.is_pressed(m),
        None => false,
    })
}

/// The pan drag ended this frame.
pub open spec fn pan_just_released_spec(
    pan_orbit: OrbitCameraController,
    mouse: &ButtonInput,
    keys: &ButtonInput,
) -> bool {
    modifier_held_spec(keys, pan_orbit.modifier_pan) && mouse.spec_just_released(
        pan_orbit.button_pan,
    ) && !(pan_orbit.modifier_orbit is Some && keys.spec_pressed(pan_orbit.modifier_orbit->0))
}

pub fn pan_just_released(
    pan_orbit: &OrbitCameraController,
    mouse_input: &ButtonInput,
    key_input: &ButtonInput,
) -> (r: bool)
    ensures
        r == pan_just_released_spec(*pan_orbit, mouse_input, key_input),
{
    let just_released = modifier_held(key_input, pan_orbit.modifier_pan)
        && mouse_input.is_just_released(pan_orbit.button_pan);
    just_released && !(match pan_orbit.modifier_orbit {
        Some(m) => key_input.is_pressed(m),
        None => false,
    })
}

/// The fly rotate drag is held.
pub open spec fn rotate_pressed_spec(
    fly_controller: FlyCameraController,
    mouse: &ButtonInput,
    keys: &ButtonInput,
) -> bool {
    modifier_held_spec(keys, fly_controller.modifier_rotate) && mouse.spec_pressed(
        fly_controller.button_rotate,
    )
}

pub fn rotate_pressed(
    fly_controller: &FlyCameraController,
    mouse_input: &ButtonInput,
    key_input: &ButtonInput,
) -> (r: bool)
    ensures
        r == rotate_pressed_spec(*fly_controller, mouse_input, key_input),
{
    modifier_held(key_input, fly_controller.modifier_rotate) && mouse_input.is_pressed(
        fly_controller.button_rotate,
    )
}

/// The fly rotate drag began this frame.
pub open spec fn rotate_just_pressed_spec(
    fly_controller: FlyCameraController,
    mouse: &ButtonInput,
    keys: &ButtonInput,
) -> bool {
    modifier_held_spec(keys, fly_controller.modifier_rotate) && mouse.spec_just_pressed(
        fly_controller.button_rotate,
    )
}

pub fn rotate_just_pressed(
    fly_controller: &FlyCameraController,
    mouse_input: &ButtonInput,
    key_input: &ButtonInput,
) -> (r: bool)
    ensures
        r == rotate_just_pressed_spec(*fly_controller, mouse_input, key_input),
{
    modifier_held(key_input, fly_controller.modifier_rotate) && mouse_input.is_just_pressed(
        fly_controller.button_rotate,
    )
}

/// The fly rotate drag ended this frame.
pub open spec fn rotate_just_released_spec(
    fly_orbit: FlyCameraController,
    mouse: &ButtonInput,
    keys: &ButtonInput,
) -> bool {
    modifier_held_spec(keys, fly_orbit.modifier_rotate) && mouse.spec_just_released(
        fly_orbit.button_rotate,
    )
}

pub fn rotate_just_released(
    fly_orbit: &FlyCameraController,
    mouse_input: &ButtonInput,
    key_input: &ButtonInput,
) -> (r: bool)
    ensures
        r == rotate_just_released_spec(*fly_orbit, mouse_input, key_input),
{
    modifier_held(key_input, fly_orbit.modifier_rotate) && mouse_input.is_just_released(
        fly_orbit.button_rotate,
    )
}

/// The unit a scroll event was reported in.
#[derive(Debug, Clone, Copy, PartialEq, Eq, Structural)]
pub enum ScrollUnit {
    Line,
    Pixel,
}

/// One scroll event: a vertical amount tagged by its unit.
#[derive(Debug, Clone, Copy, PartialEq, Eq, Structural)]
pub struct ScrollEvent {
    pub unit: ScrollUnit,
    pub y: i64,
}

/// The semantic input deltas of one frame, consumed by the controllers.
#[derive(Debug, Clone, Copy, Default)]
pub struct MouseKeyTracker {
    pub orbit: Vec2Fx,
    pub pan: Vec2Fx,
    pub scroll_line: i64,
    pub scroll_pixel: i64,
    pub orbit_button_changed: bool,
    pub rotate: Vec2Fx,
}

/// Mathematical view of the tracker.
pub ghost struct TrackerV {
    pub orbit: V2,
    pub pan: V2,
    pub scroll_line: int,
    pub scroll_pixel: int,
    pub orbit_button_changed: bool,
    pub rotate: V2,
}

impl View for MouseKeyTracker {
    type V = TrackerV;

    open spec fn view(&self) -> TrackerV {
        TrackerV {
            orbit: self.orbit@,
            pan: self.pan@,
            scroll_line: self.scroll_line as int,
            scroll_pixel: self.scroll_pixel as int,
            orbit_button_changed: self.orbit_button_changed,
            rotate: self.rotate@,
        }
    }
}

/// A tracker whose deltas the controllers can consume without
/// overflowing.
pub open spec fn wf_tracker(t: TrackerV) -> bool {
    &&& bounded2(t.orbit, 1_000_000_000_000)
    &&& bounded2(t.pan, 1_000_000_000_000)
    &&& abs_spec(t.scroll_line) <= 1_000_000_000_000
    &&& abs_spec(t.scroll_pixel) <= 1_000_000_000_000
    &&& bounded2(t.rotate, 1_000_000_000_000)
}

/// A batch of per-frame events the host may hand over: each one
/// bounded, and boundedly many.
pub open spec fn wf_motion_events(s: Seq<Vec2Fx>) -> bool {
    s.len() <= 1000 && forall|k: int| 0 <= k < s.len() ==> bounded2((#[trigger] s[k])@, FX_INPUT_MAX as int)
}

pub open spec fn wf_scroll_events(s: Seq<ScrollEvent>) -> bool {
    s.len() <= 1000 && forall|k: int| 0 <= k < s.len() ==> abs_spec((#[trigger] s[k]).y as int) <= FX_INPUT_MAX
}

/// Sum of the motion deltas of a frame.
pub open spec fn motion_sum_spec(s: Seq<Vec2Fx>) -> V2
    decreases s.len(),
{
    if s.len() == 0 {
        V2 { x: 0, y: 0 }
    } else {
        let rest = motion_sum_spec(s.drop_last());
        V2 { x: rest.x + s.last()@.x, y: rest.y + s.last()@.y }
    }
}

/// Sums of the line and pixel scroll deltas of a frame; pixel amounts
/// count five thousandths of a line each.
pub open spec fn scroll_sums_spec(s: Seq<ScrollEvent>) -> (int, int)
    decreases s.len(),
{
    if s.len() == 0 {
        (0, 0)
    } else {
        let (line, pixel) = scroll_sums_spec(s.drop_last());
        match s.last().unit {
            ScrollUnit::Line => (line + s.last().y, pixel),
            ScrollUnit::Pixel => (line, pixel + fx_mul_spec(s.last().y as int, 5_000)),
        }
    }
}

proof fn lemma_motion_sum_bound(s: Seq<Vec2Fx>)
    requires
        wf_motion_events(s),
    ensures
        bounded2(motion_sum_spec(s), s.len() * (FX_INPUT_MAX as int)),
    decreases s.len(),
{
    if s.len() > 0 {
        assert(wf_motion_events(s.drop_last())) by {
            assert(forall|k: int|
                0 <= k < s.len() - 1 ==> s.drop_last()[k] == s[k]);
        }
        lemma_motion_sum_bound(s.drop_last());
        assert(bounded2(s.last()@, FX_INPUT_MAX as int));
        assert((s.len() - 1) * (FX_INPUT_MAX as int) + FX_INPUT_MAX == s.len() * (
        FX_INPUT_MAX as int)) by (nonlinear_arith);
    }
}

proof fn lemma_scroll_sums_bound(s: Seq<ScrollEvent>)
    requires
        wf_scroll_events(s),
    ensures
        abs_spec(scroll_sums_spec(s).0) <= s.len() * (FX_INPUT_MAX as int),
        abs_spec(scroll_sums_spec(s).1) <= s.len() * (FX_INPUT_MAX as int),
    decreases s.len(),
{
    if s.len() > 0 {
        assert(wf_scroll_events(s.drop_last())) by {
            assert(forall|k: int|
                0 <= k < s.len() - 1 ==> s.drop_last()[k] == s[k]);
        }
        lemma_scroll_sums_bound(s.drop_last());
        crate::fx::lemma_fx_mul_bound(s.last().y as int, 5_000, FX_INPUT_MAX as int, 5_000);
        assert((FX_INPUT_MAX as int * 5_000) / 1_000_000 <= FX_INPUT_MAX);
        assert((s.len() - 1) * (FX_INPUT_MAX as int) + FX_INPUT_MAX == s.len() * (
        FX_INPUT_MAX as int)) by (nonlinear_arith);
    }
}

/// Sum the motion deltas of a frame.
fn motion_sum(events: &Vec<Vec2Fx>) -> (r: Vec2Fx)
    requires
        wf_motion_events(events@),
    ensures
        r@ == motion_sum_spec(events@),
        bounded2(r@, 1_000_000_000_000),
{
    proof {
        lemma_motion_sum_bound(events@);
    }
    let mut x: i64 = 0;
    let mut y: i64 = 0;
    let mut i: usize = 0;
    while i < events.len()
        invariant
            wf_motion_events(events@),
            0 <= i <= events.len(),
            x as int == motion_sum_spec(events@.take(i as int)).x,
            y as int == motion_sum_spec(events@.take(i as int)).y,
            abs_spec(x as int) <= i * (FX_INPUT_MAX as int),
            abs_spec(y as int) <= i * (FX_INPUT_MAX as int),
        decreases events.len() - i,
    {
        proof {
            assert(events@.take(i + 1).drop_last() =~= events@.take(i as int));
            assert(events@.take(i + 1).last() == events@[i as int]);
            assert((i + 1) * (FX_INPUT_MAX as int) == i * (FX_INPUT_MAX as int) + FX_INPUT_MAX)
                by (nonlinear_arith);
            assert(i * (FX_INPUT_MAX as int) <= 1000 * (FX_INPUT_MAX as int)) by (nonlinear_arith)
                requires
                    0 <= i <= 1000,
            ;
        }
        x = x + events[i].x;
        y = y + events[i].y;
        i = i + 1;
    }
    proof {
        assert(events@.take(events@.len() as int) =~= events@);
    }
    Vec2Fx { x, y }
}

/// Sum the scroll deltas of a frame by unit.
fn scroll_sums(events: &Vec<ScrollEvent>) -> (r: (i64, i64))
    requires
        wf_scroll_events(events@),
    ensures
        (r.0 as int, r.1 as int) == scroll_sums_spec(events@),
        abs_spec(r.0 as int) <= 1_000_000_000_000,
        abs_spec(r.1 as int) <= 1_000_000_000_000,
{
    proof {
        lemma_scroll_sums_bound(events@);
    }
    let mut line: i64 = 0;
    let mut pixel: i64 = 0;
    let mut i: usize = 0;
    while i < events.len()
        invariant
            wf_scroll_events(events@),
            0 <= i <= events.len(),
            line as int == scroll_sums_spec(events@.take(i as int)).0,
            pixel as int == scroll_sums_spec(events@.take(i as int)).1,
            abs_spec(line as int) <= i * (FX_INPUT_MAX as int),
            abs_spec(pixel as int) <= i * (FX_INPUT_MAX as int),
        decreases events.len() - i,
    {
        proof {
            assert(events@.take(i + 1).drop_last() =~= events@.take(i as int));
            assert(events@.take(i + 1).last() == events@[i as int]);
            assert((i + 1) * (FX_INPUT_MAX as int) == i * (FX_INPUT_MAX as int) + FX_INPUT_MAX)
                by (nonlinear_arith);
            assert(i * (FX_INPUT_MAX as int) <= 1000 * (FX_INPUT_MAX as int)) by (nonlinear_arith)
                requires
                    0 <= i <= 1000,
            ;
            crate::fx::lemma_fx_mul_bound(
                events@[i as int].y as int,
                5_000,
                FX_INPUT_MAX as int,
                5_000,
            );
            crate::fx::lemma_fx_mul_fits(events@[i as int].y as int, 5_000);
        }
        match events[i].unit {
            ScrollUnit::Line => {
                line = line + events[i].y;
            },
            ScrollUnit::Pixel => {
                pixel = pixel + fx_mul(events[i].y, 5_000);
            },
        }
        i = i + 1;
    }
    proof {
        assert(events@.take(events@.len() as int) =~= events@);
    }
    (line, pixel)
}

/// The tracker contents while an enabled orbit controller owns input:
/// motion goes to orbiting while the orbit drag is held, else to
/// panning while the pan drag is held; scroll goes to zooming; an orbit
/// drag edge this frame is flagged.
pub open spec fn orbit_tracker_spec(
    controller: OrbitCameraController,
    mouse: &ButtonInput,
    keys: &ButtonInput,
    motion: V2,
    line: int,
    pixel: int,
) -> TrackerV {
    TrackerV {
        orbit: if orbit_pressed_spec(controller, mouse, keys) {
            motion
        } else {
            V2 { x: 0, y: 0 }
        },
        pan: if !orbit_pressed_spec(controller, mouse, keys) && pan_pressed_spec(
            controller,
            mouse,
            keys,
        ) {
            motion
        } else {
            V2 { x: 0, y: 0 }
        },
        scroll_line: line,
        scroll_pixel: pixel,
        orbit_button_changed: orbit_just_pressed_spec(controller, mouse, keys)
            || orbit_just_released_spec(controller, mouse, keys),
        rotate: V2 { x: 0, y: 0 },
    }
}

/// The tracker contents while an enabled fly controller owns input:
/// motion goes to rotation while the rotate drag is held; scroll goes
/// to speed.
pub open spec fn fly_tracker_spec(
    controller: FlyCameraController,
    mouse: &ButtonInput,
    keys: &ButtonInput,
    motion: V2,
    line: int,
    pixel: int,
) -> TrackerV {
    TrackerV {
        orbit: V2 { x: 0, y: 0 },
        pan: V2 { x: 0, y: 0 },
        scroll_line: line,
        scroll_pixel: pixel,
        orbit_button_changed: false,
        rotate: if rotate_pressed_spec(controller, mouse, keys) {
            motion
        } else {
            V2 { x: 0, y: 0 }
        },
    }
}

/// Reduce one frame's raw input to the semantic deltas for the active
/// camera's controllers. `orbit_controller` and `fly_controller` are
/// the controllers attached to the active camera, if any; while neither
/// is present and enabled the tracker keeps its previous contents.
pub fn mouse_key_tracker_system(
    camera_movement: &mut MouseKeyTracker,
    mouse_input: &ButtonInput,
    key_input: &ButtonInput,
    mouse_motion: &Vec<Vec2Fx>,
    scroll_events: &Vec<ScrollEvent>,
    orbit_controller: Option<&OrbitCameraController>,
    fly_controller: Option<&FlyCameraController>,
)
    requires
        wf_motion_events(mouse_motion@),
        wf_scroll_events(scroll_events@),
    ensures
        ({
            let motion = motion_sum_spec(mouse_motion@);
            let (line, pixel) = scroll_sums_spec(scroll_events@);
            let after_orbit = if orbit_controller is Some && orbit_controller->0.is_enabled {
                orbit_tracker_spec(*orbit_controller->0, mouse_input, key_input, motion, line, pixel)
            } else {
                old(camera_movement)@
            };
            final(camera_movement)@ == if fly_controller is Some && fly_controller->0.is_enabled {
                fly_tracker_spec(*fly_controller->0, mouse_input, key_input, motion, line, pixel)
            } else {
                after_orbit
            }
        }),
        wf_tracker(old(camera_movement)@) ==> wf_tracker(final(camera_movement)@),
{
    let run_orbit = match orbit_controller {
        Some(c) => c.is_enabled,
        None => false,
    };
    let run_fly = match fly_controller {
        Some(c) => c.is_enabled,
        None => false,
    };
    if run_orbit || run_fly {
        let motion = motion_sum(mouse_motion);
        let (line, pixel) = scroll_sums(scroll_events);
        if run_orbit {
            let controller = match orbit_controller {
                Some(c) => c,
                None => unreached(),
            };
            let is_orbit = orbit_pressed(controller, mouse_input, key_input);
            let is_pan = pan_pressed(controller, mouse_input, key_input);
            camera_movement.orbit = if is_orbit {
                motion
            } else {
                Vec2Fx::zero()
            };
            camera_movement.pan = if !is_orbit && is_pan {
                motion
            } else {
                Vec2Fx::zero()
            };
            camera_movement.scroll_line = line;
            camera_movement.scroll_pixel = pixel;
            camera_movement.orbit_button_changed = orbit_just_pressed(
                controller,
                mouse_input,
                key_input,
            ) || orbit_just_released(controller, mouse_input, key_input);
            camera_movement.rotate = Vec2Fx::zero();
        }
        if run_fly {
            let controller = match fly_controller {
                Some(c) => c,
                None => unreached(),
            };
            let is_rotate = rotate_pressed(controller, mouse_input, key_input);
            camera_movement.orbit = Vec2Fx::zero();
            camera_movement.pan = Vec2Fx::zero();
            camera_movement.scroll_line = line;
            camera_movement.scroll_pixel = pixel;
            camera_movement.orbit_button_changed = false;
            camera_movement.rotate = if is_rotate {
                motion
            } else {
                Vec2Fx::zero()
            };
        }
    }
}

} // verus!
