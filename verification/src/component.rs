//! Typed components attachable to game objects.
//!
//! A component is a capability-typed value; at most one component of a given
//! type lives on an object, so component storage is keyed by a type tag.
//! The closed set of built-in kinds covers the drawable capability
//! ([`Renderer`]), a per-frame behaviour ([`Rotator`]) and inert user-defined
//! capabilities ([`ComponentKind::Marker`]) that exist to be required or
//! conflicted with.

use vstd::prelude::*;

verus! {

/// Identifies a component type; the key of per-object component storage.
pub type ComponentTag = u64;

/// Tag of the [`Renderer`] component kind.
pub const RENDERER_TAG: ComponentTag = 1;

/// Tag of the [`Rotator`] component kind.
pub const ROTATOR_TAG: ComponentTag = 2;

/// Lowest tag available to marker components; the built-in kinds stay below.
pub const FIRST_MARKER_TAG: ComponentTag = 16;

/// Wraps an opaque drawable handle; collected during render traversal.
/// The handle names a drawable owned by the rendering backend.
#[derive(Clone, Copy, Debug, PartialEq, Eq, Structural)]
pub struct Renderer {
    /// Backend-assigned identifier of the drawable to submit.
    pub handle: u64,
}

impl Renderer {
    /// A renderer component wrapping the given drawable handle.
    pub fn new(handle: u64) -> (r: Renderer)
        ensures
            r.handle == handle,
    {
        Renderer { handle }
    }
}

/// A per-frame behaviour: rotates the owning object around the y axis.
#[derive(Clone, Copy, Debug, PartialEq, Eq, Structural)]
pub struct Rotator {
    /// Angular speed in milliradians per second.
    pub speed: i64,
}

impl Rotator {
    /// A rotator with the given angular speed (milliradians per second).
    pub fn new(speed: i64) -> (r: Rotator)
        ensures
            r.speed == speed,
    {
        Rotator { speed }
    }
}

/// The closed set of component kinds.
#[derive(Clone, Copy, Debug, PartialEq, Eq, Structural)]
pub enum ComponentKind {
    /// A drawable wrapper, collected during render traversal.
    Renderer(Renderer),
    /// A per-frame update behaviour.
    Rotator(Rotator),
    /// An inert user-defined capability, identified by its own tag
    /// (at least [`FIRST_MARKER_TAG`]).
    Marker(ComponentTag),
}

/// Component types that must be present, and that must be absent, on an
/// object before a component may be added to it.
#[derive(Debug)]
#[verifier::ext_equal]
pub struct ComponentRequirements {
    /// Tags that must already be present on the object.
    pub required: Vec<ComponentTag>,
    /// Tags that must be absent from the object.
    pub conflicts: Vec<ComponentTag>,
}

impl ComponentRequirements {
    /// No requirements and no conflicts.
    pub fn none() -> (r: ComponentRequirements)
        ensures
            r.required@ == Seq::<ComponentTag>::empty(),
            r.conflicts@ == Seq::<ComponentTag>::empty(),
    {
        ComponentRequirements { required: Vec::new(), conflicts: Vec::new() }
    }
}

impl Clone for ComponentRequirements {
    /// A copy with the same required and conflicting tags.
    fn clone(&self) -> (r: ComponentRequirements)
        ensures
            r.required@ == self.required@,
            r.conflicts@ == self.conflicts@,
    {
        let r = ComponentRequirements {
            required: self.required.clone(),
            conflicts: self.conflicts.clone(),
        };
        proof {
            assert(r.required@ =~= self.required@);
            assert(r.conflicts@ =~= self.conflicts@);
        }
        r
    }
}

impl Default for ComponentRequirements {
    /// No requirements and no conflicts.
    fn default() -> (r: ComponentRequirements)
        ensures
            r.required@ == Seq::<ComponentTag>::empty(),
            r.conflicts@ == Seq::<ComponentTag>::empty(),
    {
        ComponentRequirements::none()
    }
}

/// A component value: its kind together with its declared requirements.
#[derive(Debug)]
#[verifier::ext_equal]
pub struct Component {
    /// What the component is and its data.
    pub kind: ComponentKind,
    /// What must be present or absent on the object it is added to.
    pub requirements: ComponentRequirements,
}

impl Component {
    /// The tag under which this component is stored: the key of its type.
    pub open spec fn spec_tag(self) -> ComponentTag {
        match self.kind {
            ComponentKind::Renderer(_) => RENDERER_TAG,
            ComponentKind::Rotator(_) => ROTATOR_TAG,
            ComponentKind::Marker(t) => t,
        }
    }

    /// Whether this component takes part in the per-frame update pass.
    pub open spec fn spec_updateable(self) -> bool {
        match self.kind {
            ComponentKind::Rotator(_) => true,
            _ => false,
        }
    }

    /// A component of the given kind with no requirements.
    pub fn new(kind: ComponentKind) -> (c: Component)
        ensures
            c.kind == kind,
            c.requirements.required@ == Seq::<ComponentTag>::empty(),
            c.requirements.conflicts@ == Seq::<ComponentTag>::empty(),
    {
        Component { kind, requirements: ComponentRequirements::none() }
    }

    /// A component of the given kind with the given requirements.
    pub fn with_requirements(kind: ComponentKind, requirements: ComponentRequirements) -> (c:
        Component)
        ensures
            c.kind == kind,
            c.requirements == requirements,
    {
        Component { kind, requirements }
    }

    /// The tag under which this component is stored.
    pub fn tag(&self) -> (t: ComponentTag)
        ensures
            t == self.spec_tag(),
    {
        match self.kind {
            ComponentKind::Renderer(_) => RENDERER_TAG,
            ComponentKind::Rotator(_) => ROTATOR_TAG,
            ComponentKind::Marker(t) => t,
        }
    }

    /// Whether this component takes part in the per-frame update pass.
    pub fn is_updateable(&self) -> (u: bool)
        ensures
            u == self.spec_updateable(),
    {
        match self.kind {
            ComponentKind::Rotator(_) => true,
            _ => false,
        }
    }
}

/// The two components have the same kind and the same declared
/// requirements: they are copies of one another.
pub open spec fn component_like(a: Component, b: Component) -> bool {
    a.kind == b.kind && a.requirements.required@ == b.requirements.required@
        && a.requirements.conflicts@ == b.requirements.conflicts@
}

impl Clone for Component {
    /// A copy with the same kind and requirements.
    fn clone(&self) -> (r: Component)
        ensures
            component_like(r, *self),
    {
        Component { kind: self.kind, requirements: self.requirements.clone() }
    }
}

/// Hooks a component type may use to react to being attached or removed,
/// and to declare its requirements.
pub trait ComponentLifecycle {
    /// Called when the component is attached to an object.
    fn on_add(&mut self);

    /// Called when the component is removed from an object.
    fn on_remove(&mut self);

    /// The component types this one requires and conflicts with.
    fn get_requirements(&self) -> ComponentRequirements;
}

impl ComponentLifecycle for Component {
    fn on_add(&mut self) {
    }

    fn on_remove(&mut self) {
    }

    fn get_requirements(&self) -> ComponentRequirements {
        self.requirements.clone()
    }
}

/// Some component in `cs` is stored under tag `t`.
pub open spec fn has_tag(cs: Seq<Component>, t: ComponentTag) -> bool {
    exists|k: int| 0 <= k < cs.len() && #[trigger] cs[k].spec_tag() == t
}

/// No two components in `cs` share a tag: the storage is keyed by type.
pub open spec fn tags_distinct(cs: Seq<Component>) -> bool {
    forall|i: int, j: int|
        0 <= i < j < cs.len() ==> #[trigger] cs[i].spec_tag() != #[trigger] cs[j].spec_tag()
}

/// Every required tag of `c` is present in `cs` and every conflicting tag
/// is absent: the condition under which `c` may be added.
pub open spec fn requirements_satisfied(cs: Seq<Component>, c: Component) -> bool {
    (forall|k: int|
        0 <= k < c.requirements.required@.len() ==> has_tag(
            cs,
            #[trigger] c.requirements.required@[k],
        )) && (forall|k: int|
        0 <= k < c.requirements.conflicts@.len() ==> !has_tag(
            cs,
            #[trigger] c.requirements.conflicts@[k],
        ))
}

/// Under distinct tags, two stored components with the same tag are the
/// same component: retrieval by tag is unambiguous.
pub proof fn lemma_unique_by_tag(cs: Seq<Component>, i: int, j: int)
    requires
        tags_distinct(cs),
        0 <= i < cs.len(),
        0 <= j < cs.len(),
        cs[i].spec_tag() == cs[j].spec_tag(),
    ensures
        i == j,
{
    if i < j {
        assert(cs[i].spec_tag() != cs[j].spec_tag());
    } else if j < i {
        assert(cs[j].spec_tag() != cs[i].spec_tag());
    }
}

/// The drawable handle of the first renderer component at position `k`
/// or later, if any.
pub open spec fn spec_renderer_from(cs: Seq<Component>, k: int) -> Option<u64>
    decreases cs.len() - k,
{
    if 0 <= k < cs.len() {
        match cs[k].kind {
            ComponentKind::Renderer(r) => Some(r.handle),
            _ => spec_renderer_from(cs, k + 1),
        }
    } else {
        None
    }
}

/// The drawable handle of the first renderer component, if any.
pub open spec fn spec_renderer_in(cs: Seq<Component>) -> Option<u64> {
    spec_renderer_from(cs, 0)
}

/// Storing a component and immediately retrieving by its tag yields
/// exactly the stored component: after an add that pushed `c` or
/// replaced the previous holder of its tag, every component under that
/// tag is `c` — the former instance leaves no trace.
pub proof fn lemma_add_then_get(pre: Seq<Component>, post: Seq<Component>, c: Component)
    requires
        tags_distinct(pre),
        if has_tag(pre, c.spec_tag()) {
            exists|k: int|
                0 <= k < pre.len() && (#[trigger] pre[k]).spec_tag() == c.spec_tag() && post
                    == pre.update(k, c)
        } else {
            post == pre.push(c)
        },
    ensures
        has_tag(post, c.spec_tag()),
        post.contains(c),
        forall|j: int|
            0 <= j < post.len() && (#[trigger] post[j]).spec_tag() == c.spec_tag() ==> post[j]
                == c,
{
    if has_tag(pre, c.spec_tag()) {
        let k = choose|k: int|
            0 <= k < pre.len() && (#[trigger] pre[k]).spec_tag() == c.spec_tag() && post
                == pre.update(k, c);
        assert(post[k] == c);
        assert(has_tag(post, c.spec_tag()));
        assert forall|j: int|
            0 <= j < post.len() && (#[trigger] post[j]).spec_tag() == c.spec_tag() implies post[j]
            == c by {
            if j != k {
                assert(post[j] == pre[j]);
                lemma_unique_by_tag(pre, j, k);
            }
        }
    } else {
        let n = pre.len() as int;
        assert(post[n] == c);
        assert(has_tag(post, c.spec_tag()));
        assert forall|j: int|
            0 <= j < post.len() && (#[trigger] post[j]).spec_tag() == c.spec_tag() implies post[j]
            == c by {
            if j < n {
                assert(post[j] == pre[j]);
                assert(!has_tag(pre, c.spec_tag()));
            }
        }
    }
}

/// The error returned when adding a component whose declared requirements
/// the object does not meet.
#[derive(Clone, Copy, Debug, PartialEq, Eq, Structural)]
pub enum ComponentError {
    /// A tag in the component's required set is absent from the object.
    MissingRequirement,
    /// A tag in the component's conflict set is present on the object.
    ConflictPresent,
}

} // verus!
