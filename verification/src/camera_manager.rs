//! Owns a scene's cameras, tracks which one is active, and routes frame
//! events and viewport updates to them.
//!
//! Ids are handed out sequentially. While any camera exists, one of them
//! is active: adding the first camera activates it, and removing the
//! active one falls back to the first remaining camera.

use vstd::prelude::*;

use crate::camera::{Camera, ControlType, spec_orbit_run};
use crate::frame::{Frame, InputEvent, Viewport};

verus! {

/// Identifies a camera within its manager.
pub type CameraId = u32;

/// Some entry of `s` carries the id.
pub open spec fn has_camera_id(s: Seq<(CameraId, Camera)>, id: CameraId) -> bool {
    exists|k: int| 0 <= k < s.len() && (#[trigger] s[k]).0 == id
}

/// The camera state after the active camera took one frame of events:
/// the camera (viewport refreshed first when it follows the surface),
/// the events afterwards, and whether anything changed.
pub open spec fn spec_active_camera_run(cam: Camera, frame: Frame) -> (
    Camera,
    Seq<InputEvent>,
    bool,
) {
    let refreshed = if cam.auto_viewport {
        Camera { viewport: frame.viewport, ..cam }
    } else {
        cam
    };
    match refreshed.control {
        ControlType::Orbit { min_distance, max_distance } => spec_orbit_run(
            refreshed,
            min_distance,
            max_distance,
            frame.events@,
            frame.events@.len() as int,
        ),
        ControlType::Inert => (refreshed, frame.events@, false),
    }
}

/// Owns cameras keyed by sequential ids and tracks the active one.
#[derive(Debug)]
pub struct CameraManager {
    /// The cameras, each with its id, in insertion order.
    pub cameras: Vec<(CameraId, Camera)>,
    /// The id of the active camera; absent only while no camera exists.
    pub active_camera: Option<CameraId>,
    /// The id the next added camera receives.
    pub next_id: CameraId,
}

impl CameraManager {
    /// Ids are distinct and below `next_id`; a camera is active exactly
    /// while any exists, and the active id names a stored camera.
    pub open spec fn wf(self) -> bool {
        (forall|i: int, j: int|
            0 <= i < j < self.cameras@.len() ==> (#[trigger] self.cameras@[i]).0 != (
            #[trigger] self.cameras@[j]).0) && (forall|i: int|
            0 <= i < self.cameras@.len() ==> (#[trigger] self.cameras@[i]).0 < self.next_id)
            && (match self.active_camera {
            Some(id) => has_camera_id(self.cameras@, id),
            None => self.cameras@.len() == 0,
        })
    }

    /// An empty manager: no cameras, nothing active, ids start at zero.
    pub fn new() -> (m: CameraManager)
        ensures
            m.cameras@ == Seq::<(CameraId, Camera)>::empty(),
            m.active_camera is None,
            m.next_id == 0,
            m.wf(),
    {
        CameraManager { cameras: Vec::new(), active_camera: None, next_id: 0 }
    }

    /// The position of the camera with `id`, if any.
    fn index_of(&self, id: CameraId) -> (r: Option<usize>)
        ensures
            match r {
                Some(k) => k < self.cameras@.len() && self.cameras@[k as int].0 == id,
                None => !has_camera_id(self.cameras@, id),
            },
    {
        let mut i: usize = 0;
        while i < self.cameras.len()
            invariant
                i <= self.cameras@.len(),
                forall|k: int| 0 <= k < i ==> (#[trigger] self.cameras@[k]).0 != id,
            decreases self.cameras@.len() - i,
        {
            if self.cameras[i].0 == id {
                return Some(i);
            }
            i = i + 1;
        }
        None
    }

    /// Stores the camera under the next sequential id; the first camera
    /// added becomes active.
    pub fn add_camera(&mut self, camera: Camera) -> (id: CameraId)
        requires
            old(self).wf(),
            old(self).next_id < CameraId::MAX,
        ensures
            final(self).wf(),
            id == old(self).next_id,
            final(self).cameras@ == old(self).cameras@.push((id, camera)),
            final(self).next_id == old(self).next_id + 1,
            final(self).active_camera == if old(self).active_camera is None {
                Some(id)
            } else {
                old(self).active_camera
            },
    {
        let id = self.next_id;
        self.next_id = self.next_id + 1;
        self.cameras.push((id, camera));
        if self.active_camera.is_none() {
            self.active_camera = Some(id);
        }
        proof {
            let s = self.cameras@;
            let n = s.len() as int;
            assert forall|i: int, j: int| 0 <= i < j < n implies (#[trigger] s[i]).0 != (
            #[trigger] s[j]).0 by {
                if j < n - 1 {
                    assert((old(self).cameras@[i]).0 != (old(self).cameras@[j]).0);
                } else {
                    assert((old(self).cameras@[i]).0 < old(self).next_id);
                }
            }
            assert(s[n - 1].0 == id);
            match old(self).active_camera {
                Some(a) => {
                    let j = choose|j: int|
                        0 <= j < old(self).cameras@.len() && (#[trigger] old(
                            self,
                        ).cameras@[j]).0 == a;
                    assert(s[j] == old(self).cameras@[j]);
                    assert(has_camera_id(s, a));
                },
                None => {
                    assert(has_camera_id(s, id));
                },
            }
        }
        id
    }

    /// Deletes the camera with `id` and hands it back; nothing happens
    /// when no camera carries that id. When the active camera is removed
    /// the first remaining camera becomes active, or none while no
    /// camera is left.
    pub fn remove_camera(&mut self, id: CameraId) -> (r: Option<Camera>)
        requires
            old(self).wf(),
        ensures
            final(self).wf(),
            final(self).next_id == old(self).next_id,
            match r {
                Some(cam) => has_camera_id(old(self).cameras@, id) && exists|k: int|
                    0 <= k < old(self).cameras@.len() && (#[trigger] old(self).cameras@[k]) == (
                    id,
                    cam,
                ) && final(self).cameras@ == old(self).cameras@.remove(k),
                None => !has_camera_id(old(self).cameras@, id) && *final(self) == *old(self),
            },
            r is Some ==> final(self).active_camera == if old(self).active_camera == Some(id) {
                if final(self).cameras@.len() > 0 {
                    Some(final(self).cameras@[0].0)
                } else {
                    None
                }
            } else {
                old(self).active_camera
            },
            r is Some ==> (final(self).cameras@.len() > 0 <==> final(self).active_camera is Some),
    {
        match self.index_of(id) {
            Some(k) => {
                let (_, cam) = self.cameras.remove(k);
                proof {
                    let olds = old(self).cameras@;
                    let s = self.cameras@;
                    let ki = k as int;
                    assert forall|i: int, j: int| 0 <= i < j < s.len() implies (
                    #[trigger] s[i]).0 != (#[trigger] s[j]).0 by {
                        let i0 = if i < ki { i } else { i + 1 };
                        let j0 = if j < ki { j } else { j + 1 };
                        assert(s[i] == olds[i0] && s[j] == olds[j0]);
                        assert(olds[i0].0 != olds[j0].0);
                    }
                    assert forall|i: int| 0 <= i < s.len() implies (#[trigger] s[i]).0 < self.next_id by {
                        let i0 = if i < ki { i } else { i + 1 };
                        assert(s[i] == olds[i0]);
                    }
                    assert forall|i: int| 0 <= i < s.len() && i != ki implies (
                    #[trigger] s[i]).0 != id by {
                    }
                }
                let removed_active = match self.active_camera {
                    Some(a) => a == id,
                    None => false,
                };
                if removed_active {
                    if self.cameras.len() > 0 {
                        self.active_camera = Some(self.cameras[0].0);
                    } else {
                        self.active_camera = None;
                    }
                } else {
                    proof {
                        let olds = old(self).cameras@;
                        let s = self.cameras@;
                        let ki = k as int;
                        if let Some(a) = old(self).active_camera {
                            let j = choose|j: int|
                                0 <= j < olds.len() && (#[trigger] olds[j]).0 == a;
                            assert(j != ki);
                            let j1 = if j < ki { j } else { j - 1 };
                            assert(s[j1] == olds[j]);
                            assert(has_camera_id(s, a));
                        }
                    }
                }
                Some(cam)
            },
            None => None,
        }
    }

    /// Makes the camera with `id` active; reports whether it exists.
    /// Nothing changes when it does not.
    pub fn set_active_camera(&mut self, id: CameraId) -> (r: bool)
        requires
            old(self).wf(),
        ensures
            final(self).wf(),
            r == has_camera_id(old(self).cameras@, id),
            r ==> *final(self) == (CameraManager {
                active_camera: Some(id),
                ..*old(self)
            }),
            !r ==> *final(self) == *old(self),
    {
        match self.index_of(id) {
            Some(_) => {
                self.active_camera = Some(id);
                true
            },
            None => false,
        }
    }

    /// The active camera, or nothing while no camera exists.
    pub fn get_active_camera(&self) -> (r: Option<&Camera>)
        requires
            self.wf(),
        ensures
            match r {
                Some(c) => exists|k: int|
                    0 <= k < self.cameras@.len() && #[trigger] self.cameras@[k] == (
                    self.active_camera.unwrap(),
                    *c,
                ),
                None => self.active_camera is None && self.cameras@.len() == 0,
            },
    {
        match self.active_camera {
            Some(id) => {
                match self.index_of(id) {
                    Some(k) => Some(&self.cameras[k].1),
                    None => {
                        proof {
                            assert(has_camera_id(self.cameras@, id));
                        }
                        None
                    },
                }
            },
            None => None,
        }
    }

    /// The camera with `id`, or nothing.
    pub fn get_camera(&self, id: CameraId) -> (r: Option<&Camera>)
        ensures
            match r {
                Some(c) => exists|k: int|
                    0 <= k < self.cameras@.len() && #[trigger] self.cameras@[k] == (id, *c),
                None => !has_camera_id(self.cameras@, id),
            },
    {
        match self.index_of(id) {
            Some(k) => Some(&self.cameras[k].1),
            None => None,
        }
    }

    /// A mutable borrow of the camera with `id`; it must exist. Ids
    /// live beside the cameras, so a rewrite through the borrow moves
    /// no camera to another id.
    pub fn get_camera_mut(&mut self, id: CameraId) -> (r: &mut Camera)
        requires
            old(self).wf(),
            has_camera_id(old(self).cameras@, id),
        ensures
            final(self).active_camera == old(self).active_camera,
            final(self).next_id == old(self).next_id,
            exists|k: int|
                0 <= k < old(self).cameras@.len() && (#[trigger] old(self).cameras@[k]) == (
                id,
                *r,
            ) && final(self).cameras@ == old(self).cameras@.update(k, (id, *final(r))),
    {
        let k = match self.index_of(id) {
            Some(k) => k,
            None => {
                proof {
                    assert(false);
                }
                0
            },
        };
        &mut self.cameras[k].1
    }

    /// A mutable borrow of the active camera; one must be active.
    pub fn get_active_camera_mut(&mut self) -> (r: &mut Camera)
        requires
            old(self).wf(),
            old(self).active_camera is Some,
        ensures
            final(self).active_camera == old(self).active_camera,
            final(self).next_id == old(self).next_id,
            exists|k: int|
                0 <= k < old(self).cameras@.len() && (#[trigger] old(self).cameras@[k]) == (
                old(self).active_camera.unwrap(),
                *r,
            ) && final(self).cameras@ == old(self).cameras@.update(
                k,
                (old(self).active_camera.unwrap(), *final(r)),
            ),
    {
        let id = match self.active_camera {
            Some(id) => id,
            None => {
                proof {
                    assert(false);
                }
                0
            },
        };
        self.get_camera_mut(id)
    }

    /// The ids of all cameras, in insertion order.
    pub fn camera_ids(&self) -> (r: Vec<CameraId>)
        ensures
            r@.len() == self.cameras@.len(),
            forall|k: int| 0 <= k < r@.len() ==> r@[k] == (#[trigger] self.cameras@[k]).0,
    {
        let mut out: Vec<CameraId> = Vec::new();
        let mut i: usize = 0;
        while i < self.cameras.len()
            invariant
                i <= self.cameras@.len(),
                out@.len() == i,
                forall|k: int| 0 <= k < i ==> out@[k] == (#[trigger] self.cameras@[k]).0,
            decreases self.cameras@.len() - i,
        {
            out.push(self.cameras[i].0);
            i = i + 1;
        }
        out
    }

    /// Routes the frame to the active camera: its viewport is refreshed
    /// first when it follows the surface, then it consumes the frame's
    /// events. Without an active camera nothing happens.
    pub fn handle_events(&mut self, frame: &mut Frame) -> (changed: bool)
        requires
            old(self).wf(),
        ensures
            final(self).wf(),
            final(self).active_camera == old(self).active_camera,
            final(self).next_id == old(self).next_id,
            final(frame).delta_time == old(frame).delta_time,
            final(frame).viewport == old(frame).viewport,
            match old(self).active_camera {
                None => *final(self) == *old(self) && *final(frame) == *old(frame) && !changed,
                Some(id) => exists|k: int|
                    0 <= k < old(self).cameras@.len() && (#[trigger] old(self).cameras@[k]).0
                        == id && ({
                        let run = spec_active_camera_run(old(self).cameras@[k].1, *old(frame));
                        final(self).cameras@ == old(self).cameras@.update(k, (id, run.0))
                            && final(frame).events@ == run.1 && changed == run.2
                    }),
            },
    {
        let id = match self.active_camera {
            Some(id) => id,
            None => {
                return false;
            },
        };
        match self.index_of(id) {
            Some(k) => {
                let mut cam = self.cameras[k].1;
                if cam.auto_viewport {
                    cam.set_viewport(frame.viewport());
                }
                let changed = cam.handle_events(frame);
                self.cameras.set(k, (id, cam));
                proof {
                    let olds = old(self).cameras@;
                    let s = self.cameras@;
                    let ki = k as int;
                    assert forall|i: int, j: int| 0 <= i < j < s.len() implies (
                    #[trigger] s[i]).0 != (#[trigger] s[j]).0 by {
                        assert(olds[i].0 != olds[j].0);
                    }
                    assert(s[ki].0 == id);
                    assert(has_camera_id(s, id));
                }
                changed
            },
            None => {
                proof {
                    assert(has_camera_id(self.cameras@, id));
                }
                false
            },
        }
    }

    /// Applies the new viewport to every camera that follows the render
    /// surface; cameras with a fixed viewport keep theirs.
    pub fn update_viewports(&mut self, viewport: Viewport)
        requires
            old(self).wf(),
        ensures
            final(self).wf(),
            final(self).active_camera == old(self).active_camera,
            final(self).next_id == old(self).next_id,
            final(self).cameras@.len() == old(self).cameras@.len(),
            forall|k: int|
                0 <= k < old(self).cameras@.len() ==> #[trigger] final(self).cameras@[k] == (
                    old(self).cameras@[k].0,
                    if old(self).cameras@[k].1.auto_viewport {
                        Camera { viewport, ..old(self).cameras@[k].1 }
                    } else {
                        old(self).cameras@[k].1
                    },
                ),
    {
        let mut i: usize = 0;
        while i < self.cameras.len()
            invariant
                i <= self.cameras@.len(),
                self.cameras@.len() == old(self).cameras@.len(),
                self.active_camera == old(self).active_camera,
                self.next_id == old(self).next_id,
                forall|k: int|
                    i <= k < self.cameras@.len() ==> #[trigger] self.cameras@[k] == old(
                        self,
                    ).cameras@[k],
                forall|k: int|
                    0 <= k < i ==> #[trigger] self.cameras@[k] == (
                        old(self).cameras@[k].0,
                        if old(self).cameras@[k].1.auto_viewport {
                            Camera { viewport, ..old(self).cameras@[k].1 }
                        } else {
                            old(self).cameras@[k].1
                        },
                    ),
            decreases self.cameras@.len() - i,
        {
            let (id, mut cam) = self.cameras[i];
            if cam.auto_viewport {
                cam.set_viewport(viewport);
            }
            self.cameras.set(i, (id, cam));
            i = i + 1;
        }
        proof {
            let olds = old(self).cameras@;
            let s = self.cameras@;
            assert forall|a: int, b: int| 0 <= a < b < s.len() implies (#[trigger] s[a]).0 != (
            #[trigger] s[b]).0 by {
                assert(olds[a].0 != olds[b].0);
                assert(s[a].0 == olds[a].0 && s[b].0 == olds[b].0);
            }
            assert forall|a: int| 0 <= a < s.len() implies (#[trigger] s[a]).0 < self.next_id by {
                assert(olds[a].0 < old(self).next_id);
                assert(s[a].0 == olds[a].0);
            }
            if let Some(id) = self.active_camera {
                let j = choose|j: int| 0 <= j < olds.len() && (#[trigger] olds[j]).0 == id;
                assert(s[j].0 == id);
                assert(has_camera_id(s, id));
            }
        }
    }
}

impl Default for CameraManager {
    /// Same as [`CameraManager::new`].
    fn default() -> (m: CameraManager)
        ensures
            m.cameras@ == Seq::<(CameraId, Camera)>::empty(),
            m.active_camera is None,
            m.next_id == 0,
            m.wf(),
    {
        CameraManager::new()
    }
}

} // verus!
