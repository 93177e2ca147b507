//! Addressable nodes of a scene: a name, a transform, an active flag,
//! parent/child links and a component bag keyed by component tag.
//!
//! Identity (`id`) is assigned only when the object is inserted into a
//! scene; detached objects carry none. Cloning duplicates everything by
//! value but clears identity.

use vstd::prelude::*;

use crate::component::{
    Component, ComponentError, ComponentKind, ComponentTag, has_tag, requirements_satisfied,
    spec_renderer_from, spec_renderer_in, tags_distinct, component_like,
};
use crate::transform::Transform;

verus! {

/// Identifies a game object within its scene: the index the scene's
/// arena assigned at insertion.
pub type GameObjectId = usize;

/// A node of the scene graph.
#[derive(Debug)]
pub struct GameObject {
    /// Scene-assigned identity; absent while the object is detached.
    pub id: Option<GameObjectId>,
    /// Display name; carries no identity.
    pub name: String,
    /// Spatial state, mutated by the object's own behaviours.
    pub transform: Transform,
    /// Whether this node takes part in update and render traversal.
    /// An inactive node shields its whole subtree.
    pub active: bool,
    /// The parent node, if this object was inserted as a child.
    pub parent: Option<GameObjectId>,
    /// Ids of child objects, in insertion order.
    pub children: Vec<GameObjectId>,
    /// The component bag; at most one component per tag.
    pub components: Vec<Component>,
}

impl GameObject {
    /// Component tags are distinct: storage is keyed by component type.
    pub open spec fn wf(self) -> bool {
        tags_distinct(self.components@)
    }

    /// A detached object: active, identity transform, no components,
    /// no links, no id.
    pub fn new(name: String) -> (g: GameObject)
        ensures
            g.id is None,
            g.name@ == name@,
            g.transform == Transform::spec_identity(),
            g.active,
            g.parent is None,
            g.children@ == Seq::<GameObjectId>::empty(),
            g.components@ == Seq::<Component>::empty(),
            g.wf(),
    {
        GameObject {
            id: None,
            name,
            transform: Transform::identity(),
            active: true,
            parent: None,
            children: Vec::new(),
            components: Vec::new(),
        }
    }

    /// Same as [`GameObject::new`]; kept for callers that build the name
    /// ahead of time.
    pub fn new_temp(name: String) -> (g: GameObject)
        ensures
            g.id is None,
            g.name@ == name@,
            g.transform == Transform::spec_identity(),
            g.active,
            g.parent is None,
            g.children@ == Seq::<GameObjectId>::empty(),
            g.components@ == Seq::<Component>::empty(),
            g.wf(),
    {
        GameObject::new(name)
    }

    /// Marks the object active: it takes part in update and render again.
    pub fn enable(&mut self)
        ensures
            *final(self) == (GameObject { active: true, ..*old(self) }),
    {
        self.active = true;
    }

    /// Marks the object inactive: it and its subtree are skipped by
    /// update and render traversal.
    pub fn disable(&mut self)
        ensures
            *final(self) == (GameObject { active: false, ..*old(self) }),
    {
        self.active = false;
    }

    /// The position of the component stored under `tag`, if any.
    fn index_of_tag(&self, tag: ComponentTag) -> (r: Option<usize>)
        ensures
            match r {
                Some(k) => k < self.components@.len() && self.components@[k as int].spec_tag()
                    == tag,
                None => !has_tag(self.components@, tag),
            },
    {
        let mut i: usize = 0;
        while i < self.components.len()
            invariant
                i <= self.components@.len(),
                forall|k: int| 0 <= k < i ==> #[trigger] self.components@[k].spec_tag() != tag,
            decreases self.components@.len() - i,
        {
            if self.components[i].tag() == tag {
                return Some(i);
            }
            i = i + 1;
        }
        None
    }

    /// Whether a component is stored under `tag`.
    pub fn has_component(&self, tag: ComponentTag) -> (r: bool)
        ensures
            r == has_tag(self.components@, tag),
    {
        match self.index_of_tag(tag) {
            Some(_) => true,
            None => false,
        }
    }

    /// Same presence test under the name the tag-based callers use.
    pub fn has_component_by_id(&self, tag: ComponentTag) -> (r: bool)
        ensures
            r == has_tag(self.components@, tag),
    {
        self.has_component(tag)
    }

    /// The component stored under `tag`, or nothing.
    pub fn get_component(&self, tag: ComponentTag) -> (r: Option<&Component>)
        ensures
            match r {
                Some(c) => c.spec_tag() == tag && exists|k: int|
                    0 <= k < self.components@.len() && self.components@[k] == *c,
                None => !has_tag(self.components@, tag),
            },
    {
        match self.index_of_tag(tag) {
            Some(k) => {
                let c = &self.components[k];
                proof {
                    assert(self.components@[k as int] == *c);
                }
                Some(c)
            },
            None => None,
        }
    }

    /// A mutable borrow of the component stored under `tag`; the object
    /// must hold one. The caller may rewrite the component's data;
    /// well-formedness is kept as long as its tag stays what it was.
    pub fn get_component_mut(&mut self, tag: ComponentTag) -> (r: &mut Component)
        requires
            old(self).wf(),
            has_tag(old(self).components@, tag),
        ensures
            (*r).spec_tag() == tag,
            exists|k: int|
                0 <= k < old(self).components@.len() && (#[trigger] old(self).components@[k]).spec_tag() == tag && *r == old(self).components@[k] && final(self).components@ == old(self).components@.update(k, *final(r)),
            final(self).id == old(self).id,
            final(self).name@ == old(self).name@,
            final(self).transform == old(self).transform,
            final(self).active == old(self).active,
            final(self).parent == old(self).parent,
            final(self).children@ == old(self).children@,
    {
        let k = match self.index_of_tag(tag) {
            Some(k) => k,
            None => {
                proof {
                    assert(false);
                }
                0
            },
        };
        &mut self.components[k]
    }

    /// Stores `component` under its tag, replacing any previous component
    /// of the same tag silently. The object must satisfy the component's
    /// declared requirements; [`GameObject::try_add_component`] is the
    /// total-checking entry.
    pub fn add_component(&mut self, component: Component)
        requires
            old(self).wf(),
            requirements_satisfied(old(self).components@, component),
        ensures
            final(self).wf(),
            has_tag(final(self).components@, component.spec_tag()),
            if has_tag(old(self).components@, component.spec_tag()) {
                exists|k: int|
                    0 <= k < old(self).components@.len() && old(self).components@[k].spec_tag() == component.spec_tag() && final(self).components@ == old(self).components@.update(k, component)
            } else {
                final(self).components@ == old(self).components@.push(component)
            },
            final(self).id == old(self).id,
            final(self).name@ == old(self).name@,
            final(self).transform == old(self).transform,
            final(self).active == old(self).active,
            final(self).parent == old(self).parent,
            final(self).children@ == old(self).children@,
    {
        let ghost t = component.spec_tag();
        match self.index_of_tag(component.tag()) {
            Some(k) => {
                self.components.set(k, component);
                proof {
                    assert forall|i: int, j: int|
                        0 <= i < j < self.components@.len() implies #[trigger] self.components@[i].spec_tag()
                        != #[trigger] self.components@[j].spec_tag() by {
                        assert(old(self).components@[i].spec_tag() != old(self).components@[j].spec_tag());
                    }
                    assert(self.components@[k as int].spec_tag() == t);
                }
            },
            None => {
                self.components.push(component);
                proof {
                    let n = old(self).components@.len() as int;
                    assert forall|i: int, j: int|
                        0 <= i < j < self.components@.len() implies #[trigger] self.components@[i].spec_tag()
                        != #[trigger] self.components@[j].spec_tag() by {
                        if j < n {
                            assert(old(self).components@[i].spec_tag() != old(self).components@[j].spec_tag());
                        } else {
                            assert(self.components@[j] == component);
                            assert(!has_tag(old(self).components@, t));
                            assert(old(self).components@[i].spec_tag() != t);
                        }
                    }
                    assert(self.components@[n].spec_tag() == t);
                }
            },
        }
    }

    /// Checks the component's declared requirements against this object
    /// and stores it only when they hold; the object is untouched
    /// otherwise. Fails with [`ComponentError::MissingRequirement`] when a
    /// required tag is absent, else with
    /// [`ComponentError::ConflictPresent`] when a conflicting tag is
    /// present.
    pub fn try_add_component(&mut self, component: Component) -> (r: Result<(), ComponentError>)
        requires
            old(self).wf(),
        ensures
            final(self).wf(),
            r is Ok <==> requirements_satisfied(old(self).components@, component),
            r is Ok ==> has_tag(final(self).components@, component.spec_tag()) && if has_tag(
                old(self).components@,
                component.spec_tag(),
            ) {
                exists|k: int|
                    0 <= k < old(self).components@.len() && old(self).components@[k].spec_tag() == component.spec_tag() && final(self).components@ == old(self).components@.update(k, component)
            } else {
                final(self).components@ == old(self).components@.push(component)
            },
            r is Err ==> *final(self) == *old(self),
            (exists|k: int|
                0 <= k < component.requirements.required@.len() && !has_tag(
                    old(self).components@,
                    #[trigger] component.requirements.required@[k],
                )) ==> r == Result::<(), ComponentError>::Err(ComponentError::MissingRequirement),
    {
        let mut i: usize = 0;
        while i < component.requirements.required.len()
            invariant
                self.wf(),
                *self == *old(self),
                i <= component.requirements.required@.len(),
                forall|k: int|
                    0 <= k < i ==> has_tag(
                        self.components@,
                        #[trigger] component.requirements.required@[k],
                    ),
            decreases component.requirements.required@.len() - i,
        {
            if !self.has_component(component.requirements.required[i]) {
                return Err(ComponentError::MissingRequirement);
            }
            i = i + 1;
        }
        let mut j: usize = 0;
        while j < component.requirements.conflicts.len()
            invariant
                self.wf(),
                *self == *old(self),
                j <= component.requirements.conflicts@.len(),
                forall|k: int|
                    0 <= k < j ==> !has_tag(
                        self.components@,
                        #[trigger] component.requirements.conflicts@[k],
                    ),
                forall|k: int|
                    0 <= k < component.requirements.required@.len() ==> has_tag(
                        self.components@,
                        #[trigger] component.requirements.required@[k],
                    ),
            decreases component.requirements.conflicts@.len() - j,
        {
            if self.has_component(component.requirements.conflicts[j]) {
                return Err(ComponentError::ConflictPresent);
            }
            j = j + 1;
        }
        self.add_component(component);
        Ok(())
    }

    /// Builder form of [`GameObject::add_component`]: the object with the
    /// component stored under its tag.
    pub fn with_component(self, component: Component) -> (g: GameObject)
        requires
            self.wf(),
            requirements_satisfied(self.components@, component),
        ensures
            g.wf(),
            has_tag(g.components@, component.spec_tag()),
            if has_tag(self.components@, component.spec_tag()) {
                exists|k: int|
                    0 <= k < self.components@.len() && self.components@[k].spec_tag()
                        == component.spec_tag() && g.components@ == self.components@.update(
                        k,
                        component,
                    )
            } else {
                g.components@ == self.components@.push(component)
            },
            g.id == self.id,
            g.name@ == self.name@,
            g.transform == self.transform,
            g.active == self.active,
            g.parent == self.parent,
            g.children@ == self.children@,
    {
        let mut g = self;
        g.add_component(component);
        g
    }

    /// Deletes the component stored under `tag`; nothing happens when no
    /// such component exists.
    pub fn remove_component(&mut self, tag: ComponentTag)
        requires
            old(self).wf(),
        ensures
            final(self).wf(),
            !has_tag(final(self).components@, tag),
            if has_tag(old(self).components@, tag) {
                exists|k: int|
                    0 <= k < old(self).components@.len() && old(self).components@[k].spec_tag() == tag && final(self).components@ == old(self).components@.remove(k)
            } else {
                *final(self) == *old(self)
            },
            final(self).id == old(self).id,
            final(self).name@ == old(self).name@,
            final(self).transform == old(self).transform,
            final(self).active == old(self).active,
            final(self).parent == old(self).parent,
            final(self).children@ == old(self).children@,
    {
        match self.index_of_tag(tag) {
            Some(k) => {
                self.components.remove(k);
                proof {
                    let oldc = old(self).components@;
                    let ki = k as int;
                    assert(self.components@ == oldc.remove(ki));
                    assert forall|i: int, j: int|
                        0 <= i < j < self.components@.len() implies #[trigger] self.components@[i].spec_tag()
                        != #[trigger] self.components@[j].spec_tag() by {
                        let i0 = if i < ki { i } else { i + 1 };
                        let j0 = if j < ki { j } else { j + 1 };
                        assert(self.components@[i] == oldc[i0]);
                        assert(self.components@[j] == oldc[j0]);
                        assert(oldc[i0].spec_tag() != oldc[j0].spec_tag());
                    }
                    assert forall|i: int| 0 <= i < self.components@.len()
                        implies #[trigger] self.components@[i].spec_tag() != tag by {
                        let i0 = if i < ki { i } else { i + 1 };
                        assert(self.components@[i] == oldc[i0]);
                        if self.components@[i].spec_tag() == tag {
                            crate::component::lemma_unique_by_tag(oldc, i0, ki);
                        }
                    }
                }
            },
            None => {},
        }
    }

    /// The drawable handle of the first renderer component, if any.
    pub fn renderer_handle(&self) -> (r: Option<u64>)
        ensures
            r == spec_renderer_in(self.components@),
    {
        let mut i: usize = 0;
        while i < self.components.len()
            invariant
                i <= self.components@.len(),
                spec_renderer_in(self.components@) == spec_renderer_from(
                    self.components@,
                    i as int,
                ),
            decreases self.components@.len() - i,
        {
            match self.components[i].kind {
                ComponentKind::Renderer(r) => {
                    return Some(r.handle);
                },
                _ => {},
            }
            i = i + 1;
        }
        None
    }

    /// The tags of the stored components, in storage order.
    pub fn get_component_types(&self) -> (r: Vec<ComponentTag>)
        ensures
            r@.len() == self.components@.len(),
            forall|k: int|
                0 <= k < r@.len() ==> r@[k] == #[trigger] self.components@[k].spec_tag(),
    {
        let mut out: Vec<ComponentTag> = Vec::new();
        let mut i: usize = 0;
        while i < self.components.len()
            invariant
                i <= self.components@.len(),
                out@.len() == i,
                forall|k: int|
                    0 <= k < i ==> out@[k] == #[trigger] self.components@[k].spec_tag(),
            decreases self.components@.len() - i,
        {
            out.push(self.components[i].tag());
            i = i + 1;
        }
        out
    }
}

/// The two objects are copies: same name, transform, active flag,
/// parent link and children, and copies of the same components — but `b`
/// carries no identity.
pub open spec fn clone_of(a: GameObject, b: GameObject) -> bool {
    b.id is None && b.name@ == a.name@ && b.transform == a.transform && b.active == a.active
        && b.parent == a.parent && b.children@ == a.children@ && b.components@.len()
        == a.components@.len() && forall|k: int|
        0 <= k < a.components@.len() ==> component_like(
            #[trigger] b.components@[k],
            a.components@[k],
        )
}

impl Clone for GameObject {
    /// A copy of the object with its identity cleared: clones are
    /// detached until a scene inserts them.
    fn clone(&self) -> (r: GameObject)
        ensures
            clone_of(*self, r),
            self.wf() ==> r.wf(),
    {
        let r = GameObject {
            id: None,
            name: self.name.clone(),
            transform: self.transform,
            active: self.active,
            parent: self.parent,
            children: self.children.clone(),
            components: self.components.clone(),
        };
        proof {
            assert(r.children@ =~= self.children@);
            assert forall|k: int| 0 <= k < self.components@.len() implies component_like(
                #[trigger] r.components@[k],
                self.components@[k],
            ) by {
                assert(vstd::pervasive::cloned(self.components@[k], r.components@[k]));
            }
            if self.wf() {
                assert forall|i: int, j: int|
                    0 <= i < j < r.components@.len() implies #[trigger] r.components@[i].spec_tag()
                    != #[trigger] r.components@[j].spec_tag() by {
                    assert(component_like(r.components@[i], self.components@[i]));
                    assert(component_like(r.components@[j], self.components@[j]));
                    assert(self.components@[i].spec_tag() != self.components@[j].spec_tag());
                }
            }
        }
        r
    }
}

} // verus!
