//! The active-scene state machine: a registry of scenes keyed by tag,
//! the one active at a time, and the lazy one-time load/setup transition.
//!
//! Activating a scene for the first time runs its asset-loading hook and
//! then its setup hook to completion before anything is marked; a
//! failure in either leaves the active scene and every loaded flag as
//! they were, and the scene stays eligible for a retry. Only when both
//! have succeeded does the previous scene's exit hook fire and the
//! activation commit. Re-activating an already-loaded scene skips the
//! hooks entirely.

use vstd::prelude::*;

use crate::frame::Frame;
use crate::scene::{RenderPlan, Scene, SceneError, SceneHooks};

verus! {

/// Identifies a registered scene: the stable stand-in for its type.
pub type SceneTag = u64;

/// One registered scene: its tag, its state, and whether its one-time
/// load has completed.
#[derive(Debug)]
pub struct SceneSlot {
    /// The tag the scene was registered under.
    pub tag: SceneTag,
    /// The scene's object graph, cameras and lights.
    pub scene: Scene,
    /// Whether the one-time asset-load and setup have completed.
    pub loaded: bool,
}

/// Some slot of `s` carries the tag.
pub open spec fn spec_registered(s: Seq<SceneSlot>, tag: SceneTag) -> bool {
    exists|k: int| 0 <= k < s.len() && (#[trigger] s[k]).tag == tag
}

/// The slot with the tag is marked loaded.
pub open spec fn spec_loaded(s: Seq<SceneSlot>, tag: SceneTag) -> bool {
    exists|k: int| 0 <= k < s.len() && (#[trigger] s[k]).tag == tag && s[k].loaded
}

/// Owns the registered scenes and tracks the active one.
#[derive(Debug)]
pub struct SceneManager {
    /// The registered scenes, in registration order, tags distinct.
    pub slots: Vec<SceneSlot>,
    /// The tag of the active scene, if one was ever activated.
    pub active: Option<SceneTag>,
}

impl SceneManager {
    /// Tags are distinct, the active tag names a registered scene, and
    /// every registered scene is well-formed.
    pub open spec fn wf(self) -> bool {
        (forall|i: int, j: int|
            0 <= i < j < self.slots@.len() ==> (#[trigger] self.slots@[i]).tag != (
            #[trigger] self.slots@[j]).tag) && (match self.active {
            Some(t) => spec_registered(self.slots@, t),
            None => true,
        }) && (forall|i: int| 0 <= i < self.slots@.len() ==> (#[trigger] self.slots@[i]).scene.wf())
    }

    /// An empty manager: no scenes, nothing active.
    pub fn new() -> (m: SceneManager)
        ensures
            m.wf(),
            m.slots@ == Seq::<SceneSlot>::empty(),
            m.active is None,
    {
        SceneManager { slots: Vec::new(), active: None }
    }

    /// The position of the slot with `tag`, if any.
    fn index_of(&self, tag: SceneTag) -> (r: Option<usize>)
        ensures
            match r {
                Some(k) => k < self.slots@.len() && self.slots@[k as int].tag == tag,
                None => !spec_registered(self.slots@, tag),
            },
    {
        let mut i: usize = 0;
        while i < self.slots.len()
            invariant
                i <= self.slots@.len(),
                forall|k: int| 0 <= k < i ==> (#[trigger] self.slots@[k]).tag != tag,
            decreases self.slots@.len() - i,
        {
            if self.slots[i].tag == tag {
                return Some(i);
            }
            i = i + 1;
        }
        None
    }

    /// Registers a scene under `tag`, to be activated later. A scene
    /// already registered under the same tag is replaced, and its
    /// one-time load starts over.
    pub fn register(&mut self, tag: SceneTag, scene: Scene)
        requires
            old(self).wf(),
            scene.wf(),
        ensures
            final(self).wf(),
            spec_registered(final(self).slots@, tag),
            final(self).active == old(self).active,
            if spec_registered(old(self).slots@, tag) {
                exists|k: int|
                    0 <= k < old(self).slots@.len() && (#[trigger] old(self).slots@[k]).tag == tag
                        && final(self).slots@.len() == old(self).slots@.len() && (forall|j: int|
                        0 <= j < old(self).slots@.len() && j != k ==> final(self).slots@[j] == old(self).slots@[j]) && final(self).slots@[k].tag == tag && !final(self).slots@[k].loaded
            } else {
                final(self).slots@.len() == old(self).slots@.len() + 1 && (forall|j: int|
                    0 <= j < old(self).slots@.len() ==> final(self).slots@[j] == old(self).slots@[j]) && final(self).slots@[old(self).slots@.len() as int].tag == tag
                    && !final(self).slots@[old(self).slots@.len() as int].loaded
            },
    {
        let slot = SceneSlot { tag, scene, loaded: false };
        match self.index_of(tag) {
            Some(k) => {
                self.slots.set(k, slot);
                proof {
                    let olds = old(self).slots@;
                    let s = self.slots@;
                    assert forall|i: int, j: int| 0 <= i < j < s.len() implies (
                    #[trigger] s[i]).tag != (#[trigger] s[j]).tag by {
                        assert(olds[i].tag != olds[j].tag);
                    }
                    if let Some(a) = old(self).active {
                        let w = choose|w: int| 0 <= w < olds.len() && (#[trigger] olds[w]).tag == a;
                        assert(s[w].tag == a);
                    }
                    let ki = k as int;
                    assert(olds[ki].tag == tag);
                    assert(s[ki].tag == tag && !s[ki].loaded);
                    assert(spec_registered(s, tag));
                    assert(forall|j: int| 0 <= j < olds.len() && j != ki ==> #[trigger] s[j] == olds[j]);
                }
            },
            None => {
                self.slots.push(slot);
                proof {
                    let olds = old(self).slots@;
                    let s = self.slots@;
                    let n = olds.len() as int;
                    assert forall|i: int, j: int| 0 <= i < j < s.len() implies (
                    #[trigger] s[i]).tag != (#[trigger] s[j]).tag by {
                        if j < n {
                            assert(olds[i].tag != olds[j].tag);
                        } else {
                            assert(s[j].tag == tag);
                            assert(olds[i].tag != tag);
                        }
                    }
                    assert(s[n].tag == tag);
                    if let Some(a) = old(self).active {
                        let w = choose|w: int| 0 <= w < olds.len() && (#[trigger] olds[w]).tag == a;
                        assert(s[w].tag == a);
                    }
                    assert(spec_registered(s, tag));
                    assert(!s[n].loaded);
                    assert(forall|j: int| 0 <= j < olds.len() ==> #[trigger] s[j] == olds[j]);
                }
            },
        }
    }

    /// Whether a scene is registered under `tag`.
    pub fn is_registered(&self, tag: SceneTag) -> (r: bool)
        ensures
            r == spec_registered(self.slots@, tag),
    {
        match self.index_of(tag) {
            Some(_) => true,
            None => false,
        }
    }

    /// Whether the scene registered under `tag` is the active one.
    pub fn is_active(&self, tag: SceneTag) -> (r: bool)
        ensures
            r == (self.active == Some(tag)),
    {
        match self.active {
            Some(t) => t == tag,
            None => false,
        }
    }

    /// The tag of the active scene, if one was ever activated.
    pub fn active_tag(&self) -> (r: Option<SceneTag>)
        ensures
            r == self.active,
    {
        self.active
    }

    /// The tag of the registered scene with the given name, if any.
    pub fn find_by_name(&self, name: &String) -> (r: Option<SceneTag>)
        ensures
            match r {
                Some(t) => exists|k: int|
                    0 <= k < self.slots@.len() && (#[trigger] self.slots@[k]).tag == t
                        && self.slots@[k].scene.name@ == name@,
                None => forall|k: int|
                    0 <= k < self.slots@.len() ==> (#[trigger] self.slots@[k]).scene.name@
                        != name@,
            },
    {
        let mut i: usize = 0;
        while i < self.slots.len()
            invariant
                i <= self.slots@.len(),
                forall|k: int| 0 <= k < i ==> (#[trigger] self.slots@[k]).scene.name@ != name@,
            decreases self.slots@.len() - i,
        {
            if self.slots[i].scene.name == *name {
                return Some(self.slots[i].tag);
            }
            i = i + 1;
        }
        None
    }

    /// A mutable borrow of the scene registered under `tag`; it must
    /// be registered. Mutation through public scene operations keeps it
    /// well-formed, and the manager stays well-formed with it.
    pub fn get_mut(&mut self, tag: SceneTag) -> (r: &mut Scene)
        requires
            old(self).wf(),
            spec_registered(old(self).slots@, tag),
        ensures
            final(self).active == old(self).active,
            exists|k: int|
                0 <= k < old(self).slots@.len() && (#[trigger] old(self).slots@[k]).tag == tag
                    && *r == old(self).slots@[k].scene && final(self).slots@ == old(self).slots@.update(
                    k,
                    SceneSlot {
                        tag,
                        scene: *final(r),
                        loaded: old(self).slots@[k].loaded,
                    },
                ),
            final(r).wf() ==> final(self).wf(),
    {
        let k = match self.index_of(tag) {
            Some(k) => k,
            None => {
                proof {
                    assert(false);
                }
                0
            },
        };
        let ghost pre = self.slots@;
        let r = &mut self.slots[k].scene;
        proof {
            let ki = k as int;
            assert(pre[ki].tag == tag);
            lemma_slots_update_wf_conditional(pre, ki, old(self).active);
        }
        r
    }

    /// A mutable borrow of the active scene; one must be active.
    pub fn active_scene_mut(&mut self) -> (r: &mut Scene)
        requires
            old(self).wf(),
            old(self).active is Some,
        ensures
            final(self).active == old(self).active,
            exists|k: int|
                0 <= k < old(self).slots@.len() && (#[trigger] old(self).slots@[k]).tag == old(self).active.unwrap() && *r == old(self).slots@[k].scene && final(self).slots@ == old(self).slots@.update(
                    k,
                    SceneSlot {
                        tag: old(self).active.unwrap(),
                        scene: *final(r),
                        loaded: old(self).slots@[k].loaded,
                    },
                ),
            final(r).wf() ==> final(self).wf(),
    {
        let tag = match self.active {
            Some(t) => t,
            None => {
                proof {
                    assert(false);
                }
                0
            },
        };
        self.get_mut(tag)
    }

    /// Makes the scene registered under `tag` the active one.
    ///
    /// Unregistered tag: nothing happens and `Ok(false)` comes back.
    /// First activation: the asset-loading hook runs, then the setup
    /// hook; if either fails the error propagates and the active scene
    /// and every loaded flag stay as they were — the scene remains
    /// eligible for a retry. Once they succeed (or on a re-activation
    /// of an already-loaded scene, which skips both), the previously
    /// active scene's exit hook fires and the activation commits with
    /// `Ok(true)`.
    pub fn set_active<H: SceneHooks>(&mut self, tag: SceneTag, hooks: &mut H) -> (r: Result<
        bool,
        SceneError,
    >)
        requires
            old(self).wf(),
        ensures
            final(self).wf(),
            final(self).slots@.len() == old(self).slots@.len(),
            forall|k: int|
                0 <= k < old(self).slots@.len() ==> (#[trigger] final(self).slots@[k]).tag == old(self).slots@[k].tag,
            r == Result::<bool, SceneError>::Ok(false) <==> !spec_registered(
                old(self).slots@,
                tag,
            ),
            !spec_registered(old(self).slots@, tag) ==> *final(self) == *old(self),
            r is Err ==> final(self).active == old(self).active && forall|k: int|
                0 <= k < old(self).slots@.len() ==> (#[trigger] final(self).slots@[k]).loaded
                    == old(self).slots@[k].loaded,
            r == Result::<bool, SceneError>::Ok(true) ==> final(self).active == Some(tag)
                && spec_loaded(final(self).slots@, tag),
            spec_registered(old(self).slots@, tag) && spec_loaded(old(self).slots@, tag) ==> r
                == Result::<bool, SceneError>::Ok(true),
            spec_loaded(old(self).slots@, tag) && old(self).active == Some(tag) ==> *final(hooks)
                == *old(hooks),
            !spec_registered(old(self).slots@, tag) ==> *final(hooks) == *old(hooks),
            forall|k: int|
                0 <= k < old(self).slots@.len() && old(self).slots@[k].tag != tag ==> (
                #[trigger] final(self).slots@[k]).loaded == old(self).slots@[k].loaded,
    {
        let k = match self.index_of(tag) {
            Some(k) => k,
            None => {
                return Ok(false);
            },
        };
        if !self.slots[k].loaded {
            match hooks.load_assets(tag) {
                Err(e) => {
                    return Err(e);
                },
                Ok(()) => {},
            }
            let ghost pre = self.slots@;
            let slot = &mut self.slots[k];
            let setup_result = hooks.setup(tag, &mut slot.scene);
            proof {
                assert(self.slots@ =~= pre.update(k as int, self.slots@[k as int]));
                assert(self.slots@[k as int].tag == pre[k as int].tag);
                assert(self.slots@[k as int].loaded == pre[k as int].loaded);
                lemma_slots_update_wf(pre, self.slots@, k as int, old(self).active);
            }
            match setup_result {
                Err(e) => {
                    return Err(e);
                },
                Ok(()) => {},
            }
        }
        let prev = self.active;
        match prev {
            Some(prev_tag) => {
                if prev_tag != tag {
                    match self.index_of(prev_tag) {
                        Some(pk) => {
                            let ghost pre = self.slots@;
                            let prev_slot = &mut self.slots[pk];
                            hooks.exit(prev_tag, &mut prev_slot.scene);
                            proof {
                                assert(self.slots@ =~= pre.update(
                                    pk as int,
                                    self.slots@[pk as int],
                                ));
                                assert(self.slots@[pk as int].tag == pre[pk as int].tag);
                                assert(self.slots@[pk as int].loaded == pre[pk as int].loaded);
                                lemma_slots_update_wf(pre, self.slots@, pk as int, old(self).active);
                            }
                        },
                        None => {},
                    }
                }
            },
            None => {},
        }
        let ghost pre = self.slots@;
        let slot = &mut self.slots[k];
        slot.loaded = true;
        self.active = Some(tag);
        proof {
            assert(self.slots@ =~= pre.update(k as int, self.slots@[k as int]));
            assert(self.slots@[k as int].tag == pre[k as int].tag);
            assert(self.slots@[k as int].scene == pre[k as int].scene);
            lemma_slots_update_wf(pre, self.slots@, k as int, Some(tag));
            assert(self.slots@[k as int].loaded);
            assert(spec_loaded(self.slots@, tag));
        }
        Ok(true)
    }

    /// Runs one whole frame on the active scene. An active scene must
    /// exist; asking for a frame without one is a programming error.
    pub fn update_active<H: SceneHooks>(&mut self, hooks: &mut H, frame: &mut Frame) -> (r: Result<
        Option<RenderPlan>,
        SceneError,
    >)
        requires
            old(self).wf(),
            old(self).active is Some,
        ensures
            final(self).wf(),
            final(self).active == old(self).active,
            final(self).slots@.len() == old(self).slots@.len(),
            forall|k: int|
                0 <= k < old(self).slots@.len() ==> (#[trigger] final(self).slots@[k]).tag == old(self).slots@[k].tag,
            forall|k: int|
                0 <= k < old(self).slots@.len() ==> (#[trigger] final(self).slots@[k]).loaded
                    == old(self).slots@[k].loaded,
            forall|k: int|
                0 <= k < old(self).slots@.len() && old(self).slots@[k].tag != old(self).active.unwrap() ==> #[trigger] final(self).slots@[k] == old(self).slots@[k],
            r is Ok ==> exists|k: int|
                0 <= k < final(self).slots@.len() && (#[trigger] final(self).slots@[k]).tag
                    == old(self).active.unwrap() && final(self).slots@[k].scene.frame is None && (
                r.unwrap() is Some <==> final(self).slots@[k].scene.camera_manager.active_camera is Some) && match r.unwrap() {
                    Some(plan) => plan.renderables@ == crate::scene::spec_handles(
                        final(self).slots@[k].scene.objects@,
                        crate::scene::spec_render_indices(final(self).slots@[k].scene.objects@),
                    ) && plan.lights@ == final(self).slots@[k].scene.lights@ && plan.clear == (
                    crate::scene::ClearState { r: 500, g: 500, b: 500, a: 1000, depth: 1000 })
                        && (exists|m: int|
                        0 <= m < final(self).slots@[k].scene.camera_manager.cameras@.len()
                            && #[trigger] final(self).slots@[k].scene.camera_manager.cameras@[m]
                            == (
                            final(self).slots@[k].scene.camera_manager.active_camera.unwrap(),
                            plan.camera,
                        )),
                    None => true,
                },
    {
        let tag = match self.active {
            Some(t) => t,
            None => {
                proof {
                    assert(false);
                }
                return Ok(None);
            },
        };
        match self.index_of(tag) {
            Some(k) => {
                let ghost pre = self.slots@;
                let slot = &mut self.slots[k];
                let r = slot.scene.full_update(tag, hooks, frame);
                proof {
                    assert(self.slots@ =~= pre.update(k as int, self.slots@[k as int]));
                    assert(self.slots@[k as int].tag == pre[k as int].tag);
                    lemma_slots_update_wf(pre, self.slots@, k as int, old(self).active);
                }
                r
            },
            None => {
                proof {
                    assert(spec_registered(self.slots@, tag));
                    assert(false);
                }
                Ok(None)
            },
        }
    }
}

/// After replacing one slot's scene, the manager invariants hold as
/// soon as the new scene is well-formed.
proof fn lemma_slots_update_wf_conditional(pre: Seq<SceneSlot>, k: int, active: Option<SceneTag>)
    requires
        forall|i: int, j: int|
            0 <= i < j < pre.len() ==> (#[trigger] pre[i]).tag != (#[trigger] pre[j]).tag,
        forall|i: int| 0 <= i < pre.len() ==> (#[trigger] pre[i]).scene.wf(),
        match active {
            Some(t) => spec_registered(pre, t),
            None => true,
        },
        0 <= k < pre.len(),
    ensures
        forall|sc: Scene|
            sc.wf() ==> {
                let s = pre.update(k, SceneSlot { tag: pre[k].tag, scene: sc, loaded: pre[k].loaded });
                (forall|i: int, j: int|
                    0 <= i < j < s.len() ==> (#[trigger] s[i]).tag != (#[trigger] s[j]).tag)
                    && (forall|i: int| 0 <= i < s.len() ==> (#[trigger] s[i]).scene.wf()) && (
                match active {
                    Some(t) => spec_registered(s, t),
                    None => true,
                })
            },
{
    assert forall|sc: Scene| sc.wf() implies {
        let s = pre.update(k, SceneSlot { tag: pre[k].tag, scene: sc, loaded: pre[k].loaded });
        (forall|i: int, j: int|
            0 <= i < j < s.len() ==> (#[trigger] s[i]).tag != (#[trigger] s[j]).tag) && (forall|
            i: int,
        |
            0 <= i < s.len() ==> (#[trigger] s[i]).scene.wf()) && (match active {
            Some(t) => spec_registered(s, t),
            None => true,
        })
    } by {
        let s = pre.update(k, SceneSlot { tag: pre[k].tag, scene: sc, loaded: pre[k].loaded });
        lemma_slots_update_wf(pre, s, k, active);
    }
}

/// Replacing one slot with one of the same tag and a well-formed scene
/// keeps the manager invariants.
proof fn lemma_slots_update_wf(
    pre: Seq<SceneSlot>,
    s: Seq<SceneSlot>,
    k: int,
    active: Option<SceneTag>,
)
    requires
        forall|i: int, j: int|
            0 <= i < j < pre.len() ==> (#[trigger] pre[i]).tag != (#[trigger] pre[j]).tag,
        forall|i: int| 0 <= i < pre.len() ==> (#[trigger] pre[i]).scene.wf(),
        match active {
            Some(t) => spec_registered(pre, t),
            None => true,
        },
        0 <= k < pre.len(),
        s.len() == pre.len(),
        forall|j: int| 0 <= j < pre.len() && j != k ==> #[trigger] s[j] == pre[j],
        s[k].tag == pre[k].tag,
        s[k].scene.wf(),
    ensures
        forall|i: int, j: int|
            0 <= i < j < s.len() ==> (#[trigger] s[i]).tag != (#[trigger] s[j]).tag,
        forall|i: int| 0 <= i < s.len() ==> (#[trigger] s[i]).scene.wf(),
        match active {
            Some(t) => spec_registered(s, t),
            None => true,
        },
{
    assert forall|i: int, j: int| 0 <= i < j < s.len() implies (#[trigger] s[i]).tag != (
    #[trigger] s[j]).tag by {
        assert(s[i].tag == pre[i].tag && s[j].tag == pre[j].tag);
        assert(pre[i].tag != pre[j].tag);
    }
    assert forall|i: int| 0 <= i < s.len() implies (#[trigger] s[i]).scene.wf() by {
        if i != k {
            assert(s[i] == pre[i]);
        }
    }
    if let Some(t) = active {
        let w = choose|w: int| 0 <= w < pre.len() && (#[trigger] pre[w]).tag == t;
        assert(s[w].tag == pre[w].tag);
        assert(spec_registered(s, t));
    }
}

} // verus!
