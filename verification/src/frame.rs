//! The per-frame input handed to the engine: elapsed time, the current
//! viewport, and the input events that consumers drain cooperatively by
//! marking them handled.
//!
//! The rendering backend's event loop converts its own input into these
//! plain values at the boundary; event deltas arrive in milli units.

use vstd::prelude::*;

verus! {

/// A rectangle of the render surface, in physical pixels.
#[derive(Clone, Copy, Debug, PartialEq, Eq, Structural)]
pub struct Viewport {
    /// Left edge.
    pub x: i32,
    /// Bottom edge.
    pub y: i32,
    /// Width in pixels.
    pub width: u32,
    /// Height in pixels.
    pub height: u32,
}

impl Viewport {
    /// A viewport of the given size anchored at the origin.
    pub fn new_at_origo(width: u32, height: u32) -> (v: Viewport)
        ensures
            v == (Viewport { x: 0, y: 0, width, height }),
    {
        Viewport { x: 0, y: 0, width, height }
    }
}

/// A mouse button, as far as the orbit control cares.
#[derive(Clone, Copy, Debug, PartialEq, Eq, Structural)]
pub enum MouseButton {
    /// The primary button; dragging it orbits the camera.
    Left,
    /// The secondary button.
    Right,
    /// The wheel button.
    Middle,
}

/// One input event. Each carries a `handled` flag: a consumer that reacts
/// to an event marks it handled, and later consumers skip it.
#[derive(Clone, Copy, Debug, PartialEq, Eq, Structural)]
pub enum InputEvent {
    /// Pointer motion; deltas in pixels.
    MouseMotion {
        /// Horizontal motion in pixels.
        delta_x: i32,
        /// Vertical motion in pixels.
        delta_y: i32,
        /// The button held during the motion, if any.
        button: Option<MouseButton>,
        /// Whether an earlier consumer already reacted to this event.
        handled: bool,
    },
    /// Wheel scroll; delta in milli lines.
    MouseWheel {
        /// Scroll amount in milli lines, positive towards the target.
        delta: i32,
        /// Whether an earlier consumer already reacted to this event.
        handled: bool,
    },
    /// Pinch gesture; delta in milli units.
    PinchGesture {
        /// Pinch amount in milli units, positive towards the target.
        delta: i32,
        /// Whether an earlier consumer already reacted to this event.
        handled: bool,
    },
}

/// What one frame hands to the engine: elapsed time since the previous
/// frame, the surface viewport, and the pending input events.
#[derive(Debug)]
pub struct Frame {
    /// Elapsed time since the previous frame, in milliseconds.
    pub delta_time: u64,
    /// The current viewport of the render surface.
    pub viewport: Viewport,
    /// Pending input events, drained cooperatively via their handled flags.
    pub events: Vec<InputEvent>,
}

impl Frame {
    /// A frame from its parts.
    pub fn new(delta_time: u64, viewport: Viewport, events: Vec<InputEvent>) -> (f: Frame)
        ensures
            f.delta_time == delta_time,
            f.viewport == viewport,
            f.events@ == events@,
    {
        Frame { delta_time, viewport, events }
    }

    /// Elapsed time since the previous frame, in milliseconds.
    pub fn delta_time(&self) -> (t: u64)
        ensures
            t == self.delta_time,
    {
        self.delta_time
    }

    /// The current viewport of the render surface.
    pub fn viewport(&self) -> (v: Viewport)
        ensures
            v == self.viewport,
    {
        self.viewport
    }
}

impl Clone for Frame {
    /// A copy with the same time, viewport and events.
    fn clone(&self) -> (r: Frame)
        ensures
            r.delta_time == self.delta_time,
            r.viewport == self.viewport,
            r.events@ == self.events@,
    {
        let mut events: Vec<InputEvent> = Vec::new();
        let mut i: usize = 0;
        while i < self.events.len()
            invariant
                i <= self.events@.len(),
                events@.len() == i,
                forall|k: int| 0 <= k < i ==> events@[k] == self.events@[k],
            decreases self.events@.len() - i,
        {
            events.push(self.events[i]);
            i = i + 1;
        }
        proof {
            assert(events@ =~= self.events@);
        }
        Frame { delta_time: self.delta_time, viewport: self.viewport, events }
    }
}

} // verus!
