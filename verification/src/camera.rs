//! The camera model and its orbit control state machine.
//!
//! A camera is plain data: projection kind, control mode, look-at target,
//! the distance to that target, accumulated orbit angles, and viewport
//! state. While in orbit mode it consumes pointer, wheel and pinch events:
//! drags orbit around the target at a fixed sensitivity, wheel and pinch
//! zoom towards the target at a speed proportional to the current distance,
//! clamped to the control's distance limits.

use vstd::prelude::*;

use crate::frame::{Frame, InputEvent, MouseButton, Viewport};
use crate::transform::{sat_add, spec_sat_add};
use crate::vec3::Vec3;

verus! {

/// Milliradians of orbit rotation per pixel of drag.
pub const ORBIT_SENSITIVITY: i64 = 10;

/// The projection a camera uses.
#[derive(Clone, Copy, Debug, PartialEq, Eq, Structural)]
pub enum CameraType {
    /// Perspective projection.
    Perspective,
    /// Orthographic projection.
    Orthographic,
}

/// How a camera reacts to input.
#[derive(Clone, Copy, Debug, PartialEq, Eq, Structural)]
pub enum ControlType {
    /// The camera ignores input.
    Inert,
    /// Orbit around the target, with zoom kept between the two distances
    /// (milli units).
    Orbit {
        /// Closest the camera may zoom to the target, milli units.
        min_distance: u32,
        /// Farthest the camera may zoom from the target, milli units.
        max_distance: u32,
    },
}

/// A camera: projection, control mode, look-at state and viewport.
#[derive(Clone, Copy, Debug, PartialEq, Eq, Structural)]
pub struct Camera {
    /// Which projection the camera uses.
    pub camera_type: CameraType,
    /// How the camera reacts to input.
    pub control: ControlType,
    /// The point the camera looks at, milli units.
    pub target: Vec3,
    /// Distance from the camera to its target, milli units.
    pub distance: u32,
    /// Accumulated orbit rotation around the up axis, milliradians.
    pub yaw: i64,
    /// Accumulated orbit rotation towards the up axis, milliradians.
    pub pitch: i64,
    /// The up direction used for orbiting, milli units.
    pub up: Vec3,
    /// The initial offset from the target to the camera, milli units:
    /// the viewing pose before any orbiting, which the backend rotates
    /// by the accumulated yaw and pitch and scales to the distance.
    pub offset: Vec3,
    /// Vertical field of view in millidegrees (perspective cameras).
    pub fov_millideg: u32,
    /// Near clipping distance, milli units.
    pub z_near: u32,
    /// Far clipping distance, milli units.
    pub z_far: u32,
    /// Whether the viewport follows the render surface each frame.
    pub auto_viewport: bool,
    /// The camera's current viewport.
    pub viewport: Viewport,
}

/// The smallest distance zooming may reach: at least one milli unit, so
/// the camera never lands on its target.
pub open spec fn spec_effective_min(min: u32) -> u32 {
    if min < 1 {
        1
    } else {
        min
    }
}

/// The largest distance zooming may reach: at least the effective minimum.
pub open spec fn spec_effective_max(min: u32, max: u32) -> u32 {
    if max < spec_effective_min(min) {
        spec_effective_min(min)
    } else {
        max
    }
}

/// `speed * delta / 1000` rounded toward zero; the zoom amount for a
/// milli-scaled speed and event delta.
pub open spec fn spec_zoom_amount(speed: int, delta: int) -> int {
    if delta >= 0 {
        (speed * delta) / 1000
    } else {
        -((speed * (-delta)) / 1000)
    }
}

/// Zoom speed of a wheel event: proportional to the distance, plus one
/// milli so it never stalls (`0.01 * d + 0.001` in milli units).
pub open spec fn spec_wheel_speed(distance: u32) -> int {
    distance as int / 100 + 1
}

/// Zoom speed of a pinch event: the distance itself plus a tenth of a
/// unit (`d + 0.1` in milli units).
pub open spec fn spec_pinch_speed(distance: u32) -> int {
    distance as int + 100
}

/// The distance after zooming by `delta` at `speed`, clamped between the
/// effective distance limits.
pub open spec fn spec_zoomed(distance: u32, speed: int, delta: int, min: u32, max: u32) -> u32 {
    let amount = spec_zoom_amount(speed, delta);
    let moved = distance - amount;
    let lo = spec_effective_min(min) as int;
    let hi = spec_effective_max(min, max) as int;
    if moved < lo {
        lo as u32
    } else if moved > hi {
        hi as u32
    } else {
        moved as u32
    }
}

/// One orbit-control reaction to one event: the camera afterwards, the
/// event afterwards (handled when consumed), and whether anything changed.
pub open spec fn spec_orbit_step(cam: Camera, min: u32, max: u32, ev: InputEvent) -> (
    Camera,
    InputEvent,
    bool,
) {
    match ev {
        InputEvent::MouseMotion { delta_x, delta_y, button, handled } => {
            if !handled && button == Some(MouseButton::Left) {
                (
                    Camera {
                        yaw: spec_sat_add(
                            cam.yaw as int,
                            ORBIT_SENSITIVITY as int * delta_x as int,
                        ) as i64,
                        pitch: spec_sat_add(
                            cam.pitch as int,
                            ORBIT_SENSITIVITY as int * delta_y as int,
                        ) as i64,
                        ..cam
                    },
                    InputEvent::MouseMotion { delta_x, delta_y, button, handled: true },
                    true,
                )
            } else {
                (cam, ev, false)
            }
        },
        InputEvent::MouseWheel { delta, handled } => {
            if !handled {
                (
                    Camera {
                        distance: spec_zoomed(
                            cam.distance,
                            spec_wheel_speed(cam.distance),
                            delta as int,
                            min,
                            max,
                        ),
                        ..cam
                    },
                    InputEvent::MouseWheel { delta, handled: true },
                    true,
                )
            } else {
                (cam, ev, false)
            }
        },
        InputEvent::PinchGesture { delta, handled } => {
            if !handled {
                (
                    Camera {
                        distance: spec_zoomed(
                            cam.distance,
                            spec_pinch_speed(cam.distance),
                            delta as int,
                            min,
                            max,
                        ),
                        ..cam
                    },
                    InputEvent::PinchGesture { delta, handled: true },
                    true,
                )
            } else {
                (cam, ev, false)
            }
        },
    }
}

/// The camera, events and change flag after the orbit control has
/// reacted to the first `k` events in order.
pub open spec fn spec_orbit_run(
    cam: Camera,
    min: u32,
    max: u32,
    evs: Seq<InputEvent>,
    k: int,
) -> (Camera, Seq<InputEvent>, bool)
    decreases k,
{
    if k <= 0 {
        (cam, evs, false)
    } else {
        let prev = spec_orbit_run(cam, min, max, evs, k - 1);
        let step = spec_orbit_step(prev.0, min, max, prev.1[k - 1]);
        (step.0, prev.1.update(k - 1, step.1), prev.2 || step.2)
    }
}

/// Running the orbit control over a prefix touches only that prefix:
/// length is kept and later events are untouched.
pub proof fn lemma_orbit_run_frame(cam: Camera, min: u32, max: u32, evs: Seq<InputEvent>, k: int)
    requires
        0 <= k <= evs.len(),
    ensures
        spec_orbit_run(cam, min, max, evs, k).1.len() == evs.len(),
        forall|j: int|
            k <= j < evs.len() ==> spec_orbit_run(cam, min, max, evs, k).1[j] == evs[j],
    decreases k,
{
    if k > 0 {
        lemma_orbit_run_frame(cam, min, max, evs, k - 1);
    }
}

/// Orbit reactions never change the control mode, the target, the
/// viewport state or the projection.
pub proof fn lemma_orbit_run_fixed(cam: Camera, min: u32, max: u32, evs: Seq<InputEvent>, k: int)
    requires
        0 <= k <= evs.len(),
    ensures
        spec_orbit_run(cam, min, max, evs, k).0.control == cam.control,
        spec_orbit_run(cam, min, max, evs, k).0.target == cam.target,
        spec_orbit_run(cam, min, max, evs, k).0.camera_type == cam.camera_type,
        spec_orbit_run(cam, min, max, evs, k).0.auto_viewport == cam.auto_viewport,
        spec_orbit_run(cam, min, max, evs, k).0.viewport == cam.viewport,
    decreases k,
{
    if k > 0 {
        lemma_orbit_run_fixed(cam, min, max, evs, k - 1);
    }
}

/// A zoomed distance always lands between the effective limits, whatever
/// the previous distance and the delta: zooming in never goes below the
/// minimum distance and zooming out never goes above the maximum.
pub proof fn lemma_zoom_within_limits(distance: u32, speed: int, delta: int, min: u32, max: u32)
    ensures
        spec_effective_min(min) <= spec_zoomed(distance, speed, delta, min, max)
            <= spec_effective_max(min, max),
{
}

/// A camera whose distance lies between the effective limits keeps it
/// there through any sequence of orbit-control reactions: repeated
/// zooming cannot escape the limits.
pub proof fn lemma_orbit_keeps_distance_within_limits(
    cam: Camera,
    min: u32,
    max: u32,
    evs: Seq<InputEvent>,
    k: int,
)
    requires
        0 <= k <= evs.len(),
        spec_effective_min(min) <= cam.distance <= spec_effective_max(min, max),
    ensures
        spec_effective_min(min) <= spec_orbit_run(cam, min, max, evs, k).0.distance
            <= spec_effective_max(min, max),
    decreases k,
{
    if k > 0 {
        lemma_orbit_keeps_distance_within_limits(cam, min, max, evs, k - 1);
        let prev = spec_orbit_run(cam, min, max, evs, k - 1);
        let ev = prev.1[k - 1];
        match ev {
            InputEvent::MouseWheel { delta, handled } => {
                if !handled {
                    lemma_zoom_within_limits(
                        prev.0.distance,
                        spec_wheel_speed(prev.0.distance),
                        delta as int,
                        min,
                        max,
                    );
                }
            },
            InputEvent::PinchGesture { delta, handled } => {
                if !handled {
                    lemma_zoom_within_limits(
                        prev.0.distance,
                        spec_pinch_speed(prev.0.distance),
                        delta as int,
                        min,
                        max,
                    );
                }
            },
            _ => {},
        }
    }
}

/// The distance after zooming by `delta` at `speed`, clamped between the
/// effective limits.
fn zoomed(distance: u32, speed: u64, delta: i32, min: u32, max: u32) -> (d: u32)
    requires
        speed <= u32::MAX as u64 + 100,
    ensures
        d == spec_zoomed(distance, speed as int, delta as int, min, max),
{
    proof {
        assert((speed as int) * (delta as int) <= (u32::MAX as int + 100) * (i32::MAX as int)
            && (speed as int) * (delta as int) >= (u32::MAX as int + 100) * (i32::MIN as int)
            && (speed as int) * (-(delta as int)) <= (u32::MAX as int + 100) * (-(
            i32::MIN as int))) by (nonlinear_arith)
            requires
                0 <= speed <= u32::MAX as u64 + 100,
                i32::MIN <= delta <= i32::MAX,
        ;
    }
    let amount: i128 = if delta >= 0 {
        ((speed as i128) * (delta as i128)) / 1000
    } else {
        -(((speed as i128) * (-(delta as i128))) / 1000)
    };
    let moved: i128 = distance as i128 - amount;
    let lo = if min < 1 {
        1
    } else {
        min
    };
    let hi = if max < lo {
        lo
    } else {
        max
    };
    if moved < lo as i128 {
        lo
    } else if moved > hi as i128 {
        hi
    } else {
        moved as u32
    }
}

/// Runs the orbit-control reactions over every event of the frame, with
/// the given distance limits: consumed events are marked handled in
/// place, and the camera takes the resulting orbit state.
fn orbit_events(cam: &mut Camera, frame: &mut Frame, min: u32, max: u32) -> (changed: bool)
    ensures
        ({
            let run = spec_orbit_run(
                *old(cam),
                min,
                max,
                old(frame).events@,
                old(frame).events@.len() as int,
            );
            *final(cam) == run.0 && final(frame).events@ == run.1 && changed == run.2
        }),
        final(frame).delta_time == old(frame).delta_time,
        final(frame).viewport == old(frame).viewport,
{
    let ghost evs0 = frame.events@;
    let ghost cam0 = *cam;
    let mut changed = false;
    let mut i: usize = 0;
    while i < frame.events.len()
        invariant
            i <= frame.events@.len(),
            frame.events@.len() == evs0.len(),
            frame.delta_time == old(frame).delta_time,
            frame.viewport == old(frame).viewport,
            spec_orbit_run(cam0, min, max, evs0, i as int) == (*cam, frame.events@, changed),
        decreases frame.events@.len() - i,
    {
        proof {
            lemma_orbit_run_frame(cam0, min, max, evs0, i as int);
            assert(frame.events@[i as int] == evs0[i as int]);
        }
        let ev = frame.events[i];
        let ghost pre_cam = *cam;
        let ghost pre_evs = frame.events@;
        let ghost pre_changed = changed;
        match ev {
            InputEvent::MouseMotion { delta_x, delta_y, button, handled } => {
                if !handled && button == Some(MouseButton::Left) {
                    cam.yaw = sat_add(cam.yaw, ORBIT_SENSITIVITY * (delta_x as i64));
                    cam.pitch = sat_add(cam.pitch, ORBIT_SENSITIVITY * (delta_y as i64));
                    frame.events.set(
                        i,
                        InputEvent::MouseMotion { delta_x, delta_y, button, handled: true },
                    );
                    changed = true;
                }
            },
            InputEvent::MouseWheel { delta, handled } => {
                if !handled {
                    let speed: u64 = (cam.distance / 100) as u64 + 1;
                    cam.distance = zoomed(cam.distance, speed, delta, min, max);
                    frame.events.set(i, InputEvent::MouseWheel { delta, handled: true });
                    changed = true;
                }
            },
            InputEvent::PinchGesture { delta, handled } => {
                if !handled {
                    let speed: u64 = cam.distance as u64 + 100;
                    cam.distance = zoomed(cam.distance, speed, delta, min, max);
                    frame.events.set(i, InputEvent::PinchGesture { delta, handled: true });
                    changed = true;
                }
            },
        }
        proof {
            let step = spec_orbit_step(pre_cam, min, max, pre_evs[i as int]);
            assert(*cam == step.0);
            assert(frame.events@ =~= pre_evs.update(i as int, step.1));
            assert(changed == (pre_changed || step.2));
            assert(spec_orbit_run(cam0, min, max, evs0, i as int + 1) == (
                *cam,
                frame.events@,
                changed,
            ));
        }
        i = i + 1;
    }
    changed
}

impl Camera {
    /// An orthographic camera for two-dimensional content: it looks along
    /// the depth axis at the viewport's centre from one unit away.
    pub fn new_2d(viewport: Viewport) -> (c: Camera)
        requires
            viewport.width <= 2_000_000,
            viewport.height <= 2_000_000,
        ensures
            c.camera_type == CameraType::Orthographic,
            c.control == ControlType::Inert,
            c.target.x == viewport.width as int * 500,
            c.target.y == viewport.height as int * 500,
            c.target.z == 0,
            c.distance == 1000,
            c.yaw == 0,
            c.pitch == 0,
            c.up.x == 0 && c.up.y == 1000 && c.up.z == 0,
            c.offset.x == 0 && c.offset.y == 0 && c.offset.z == 1000,
            c.z_near == 0,
            c.z_far == 10_000,
            c.auto_viewport,
            c.viewport == viewport,
    {
        Camera {
            camera_type: CameraType::Orthographic,
            control: ControlType::Inert,
            target: Vec3 {
                x: (viewport.width as i64) * 500,
                y: (viewport.height as i64) * 500,
                z: 0,
            },
            distance: 1000,
            yaw: 0,
            pitch: 0,
            up: Vec3 { x: 0, y: 1000, z: 0 },
            offset: Vec3 { x: 0, y: 0, z: 1000 },
            fov_millideg: 0,
            z_near: 0,
            z_far: 10_000,
            auto_viewport: true,
            viewport,
        }
    }

    /// A perspective camera standing at `position` and looking at
    /// `target`: the stored distance is the integer length of their
    /// difference.
    pub fn new_3d(
        viewport: Viewport,
        position: Vec3,
        target: Vec3,
        up: Vec3,
        fov_millideg: u32,
        z_near: u32,
        z_far: u32,
    ) -> (c: Camera)
        requires
            position.in_range(),
            target.in_range(),
        ensures
            c.up == up,
            c.offset.x == position.x - target.x,
            c.offset.y == position.y - target.y,
            c.offset.z == position.z - target.z,
            c.fov_millideg == fov_millideg,
            c.z_near == z_near,
            c.z_far == z_far,
            c.camera_type == CameraType::Perspective,
            c.control == ControlType::Inert,
            c.target == target,
            (c.distance as int) * (c.distance as int) <= (position.x - target.x) * (position.x
                - target.x) + (position.y - target.y) * (position.y - target.y) + (position.z
                - target.z) * (position.z - target.z) < (c.distance as int + 1) * (c.distance
                as int + 1),
            c.yaw == 0,
            c.pitch == 0,
            c.auto_viewport,
            c.viewport == viewport,
    {
        let d = position.distance(target);
        proof {
            assert((d as int) * (d as int) < (u32::MAX as int) * (u32::MAX as int) ==> d
                < u32::MAX) by (nonlinear_arith);
            assert((position.x - target.x) * (position.x - target.x) + (position.y - target.y)
                * (position.y - target.y) + (position.z - target.z) * (position.z - target.z)
                < (u32::MAX as int) * (u32::MAX as int)) by (nonlinear_arith)
                requires
                    position.in_range(),
                    target.in_range(),
            ;
        }
        Camera {
            camera_type: CameraType::Perspective,
            control: ControlType::Inert,
            distance: d as u32,
            yaw: 0,
            pitch: 0,
            up,
            offset: position.sub(target),
            target,
            fov_millideg,
            z_near,
            z_far,
            auto_viewport: true,
            viewport,
        }
    }

    /// The point the camera looks at.
    pub fn target(&self) -> (t: Vec3)
        ensures
            t == self.target,
    {
        self.target
    }

    /// Points the camera at a new target.
    pub fn set_target(&mut self, target: Vec3)
        ensures
            *final(self) == (Camera { target, ..*old(self) }),
    {
        self.target = target;
    }

    /// Replaces the camera's viewport; reports whether it changed.
    pub fn set_viewport(&mut self, viewport: Viewport) -> (changed: bool)
        ensures
            *final(self) == (Camera { viewport, ..*old(self) }),
            changed == (old(self).viewport != viewport),
    {
        let changed = !(self.viewport == viewport);
        self.viewport = viewport;
        changed
    }

    /// Reacts to the frame's events according to the control mode: in
    /// orbit mode the orbit control consumes events and updates the orbit
    /// state; an inert camera touches nothing. Reports whether anything
    /// changed.
    pub fn handle_events(&mut self, frame: &mut Frame) -> (changed: bool)
        ensures
            match old(self).control {
                ControlType::Orbit { min_distance, max_distance } => ({
                    let run = spec_orbit_run(
                        *old(self),
                        min_distance,
                        max_distance,
                        old(frame).events@,
                        old(frame).events@.len() as int,
                    );
                    *final(self) == run.0 && final(frame).events@ == run.1 && changed == run.2
                }),
                ControlType::Inert => *final(self) == *old(self) && *final(frame) == *old(frame)
                    && !changed,
            },
            final(frame).delta_time == old(frame).delta_time,
            final(frame).viewport == old(frame).viewport,
    {
        match self.control {
            ControlType::Orbit { min_distance, max_distance } => {
                orbit_events(self, frame, min_distance, max_distance)
            },
            ControlType::Inert => false,
        }
    }
}

/// A standalone orbit control: the same reactions as a camera in orbit
/// mode, with the control's own target and distance limits.
#[derive(Clone, Copy, Debug, PartialEq, Eq, Structural)]
pub struct OrbitControl {
    /// The point the control orbits around.
    pub target: Vec3,
    /// Closest the control lets the camera zoom to the target, milli units.
    pub min_distance: u32,
    /// Farthest the control lets the camera zoom from the target, milli units.
    pub max_distance: u32,
}

impl OrbitControl {
    /// An orbit control around `target` with the given distance limits.
    pub fn new(target: Vec3, min_distance: u32, max_distance: u32) -> (c: OrbitControl)
        ensures
            c == (OrbitControl { target, min_distance, max_distance }),
    {
        OrbitControl { target, min_distance, max_distance }
    }

    /// Runs the orbit reactions on `camera` over the frame's events with
    /// this control's distance limits; consumed events are marked
    /// handled. Reports whether anything changed.
    pub fn handle_events(&mut self, camera: &mut Camera, frame: &mut Frame) -> (changed: bool)
        ensures
            *final(self) == *old(self),
            ({
                let run = spec_orbit_run(
                    *old(camera),
                    old(self).min_distance,
                    old(self).max_distance,
                    old(frame).events@,
                    old(frame).events@.len() as int,
                );
                *final(camera) == run.0 && final(frame).events@ == run.1 && changed == run.2
            }),
            final(frame).delta_time == old(frame).delta_time,
            final(frame).viewport == old(frame).viewport,
    {
        orbit_events(camera, frame, self.min_distance, self.max_distance)
    }
}

} // verus!
