//! The engine: owns the scene manager and drives one frame at a time.
//!
//! The surrounding event loop converts its raw frame input into a
//! [`Frame`], hands it to [`Engine::update`], and executes the returned
//! render plan against the graphics backend.

use vstd::prelude::*;

use crate::frame::Frame;
use crate::manager::SceneManager;
use crate::scene::{spec_handles, spec_render_indices, ClearState, RenderPlan, SceneError, SceneHooks};

verus! {

/// Owns the scene registry and drives the frame loop's engine side.
#[derive(Debug)]
pub struct Engine {
    /// The registered scenes and the active one.
    pub scenes: SceneManager,
}

impl Engine {
    /// An engine with no scenes registered.
    pub fn new() -> (e: Engine)
        ensures
            e.scenes.wf(),
            e.scenes.slots@.len() == 0,
            e.scenes.active is None,
    {
        Engine { scenes: SceneManager::new() }
    }

    /// Runs one frame on the active scene and reports what to render.
    /// Calling without an active scene is a programming error: activate
    /// a scene through the scene manager first.
    pub fn update<H: SceneHooks>(&mut self, hooks: &mut H, frame: &mut Frame) -> (r: Result<
        Option<RenderPlan>,
        SceneError,
    >)
        requires
            old(self).scenes.wf(),
            old(self).scenes.active is Some,
        ensures
            final(self).scenes.wf(),
            final(self).scenes.active == old(self).scenes.active,
            final(self).scenes.slots@.len() == old(self).scenes.slots@.len(),
            forall|k: int|
                0 <= k < old(self).scenes.slots@.len() ==> (#[trigger] final(self).scenes.slots@[k]).tag == old(self).scenes.slots@[k].tag,
            forall|k: int|
                0 <= k < old(self).scenes.slots@.len() ==> (#[trigger] final(self).scenes.slots@[k]).loaded == old(self).scenes.slots@[k].loaded,
            forall|k: int|
                0 <= k < old(self).scenes.slots@.len() && old(self).scenes.slots@[k].tag != old(self).scenes.active.unwrap() ==> #[trigger] final(self).scenes.slots@[k] == old(self).scenes.slots@[k],
            r is Ok ==> exists|k: int|
                0 <= k < final(self).scenes.slots@.len() && (#[trigger] final(self).scenes.slots@[k]).tag == old(self).scenes.active.unwrap() && final(self).scenes.slots@[k].scene.frame is None && (r.unwrap() is Some <==> final(self).scenes.slots@[k].scene.camera_manager.active_camera is Some) && match r.unwrap() {
                    Some(plan) => plan.renderables@ == spec_handles(
                        final(self).scenes.slots@[k].scene.objects@,
                        spec_render_indices(final(self).scenes.slots@[k].scene.objects@),
                    ) && plan.lights@ == final(self).scenes.slots@[k].scene.lights@ && plan.clear
                        == (ClearState { r: 500, g: 500, b: 500, a: 1000, depth: 1000 }) && (
                    exists|m: int|
                        0 <= m < final(self).scenes.slots@[k].scene.camera_manager.cameras@.len()
                            && #[trigger] final(self).scenes.slots@[k].scene.camera_manager.cameras@[m] == (
                            final(self).scenes.slots@[k].scene.camera_manager.active_camera.unwrap(),
                            plan.camera,
                        )),
                    None => true,
                },
    {
        self.scenes.update_active(hooks, frame)
    }
}

} // verus!
