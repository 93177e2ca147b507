//! A scene: the hierarchy of game objects, its camera manager and light
//! list, and the per-frame orchestration.
//!
//! Objects live in a vector indexed by the ids the arena allocates, so
//! the arena and the lookup storage stay in sync: both grow by one at
//! each insertion and ids are never reused. Children always carry larger
//! ids than their parent, which makes the hierarchy acyclic by
//! construction.
//!
//! Render traversal starts at the roots (objects with no parent) in
//! insertion order and walks depth-first, pruning at the first inactive
//! node: an inactive object shields its entire subtree. Each visited
//! object carrying a renderer component contributes its drawable handle
//! to the render batch.

use vstd::prelude::*;

use crate::arena::{arena_alloc, arena_count, arena_len, arena_new};
use crate::camera::{Camera, CameraType, ControlType};
use crate::camera_builder::CameraPresets;
use crate::camera_manager::{has_camera_id, CameraId, CameraManager};
use crate::component::{spec_renderer_in, Component, ComponentKind};
use crate::frame::{Frame, Viewport};
use crate::game_object::{GameObject, GameObjectId};
use crate::lights::SceneLight;
use crate::transform::{spec_sat_add, Transform};
use crate::vec3::Vec3;

verus! {

/// The ids stored in `children` lists are consistent: every child id is
/// larger than its parent's id and in range, the child's parent link
/// points back, children lists are strictly increasing, and every
/// parent link is mirrored by membership in that parent's children.
pub open spec fn spec_links_wf(s: Seq<GameObject>) -> bool {
    (forall|i: int, k: int|
        0 <= i < s.len() && 0 <= k < s[i].children@.len() ==> (i < (
        #[trigger] s[i].children@[k]) as int) && ((s[i].children@[k] as int) < s.len())
            && s[s[i].children@[k] as int].parent == Some(i as GameObjectId)) && (forall|i: int, a: int, b: int|
        0 <= i < s.len() && 0 <= a < b < s[i].children@.len() ==> (#[trigger] s[i].children@[a])
            < (#[trigger] s[i].children@[b])) && (forall|c: int|
        0 <= c < s.len() && (#[trigger] s[c].parent) is Some ==> {
            let p = s[c].parent.unwrap() as int;
            0 <= p < c && s[p].children@.contains(c as GameObjectId)
        })
}

/// Every object is stored under its own id, is internally well-formed,
/// and the hierarchy links are consistent.
pub open spec fn spec_objects_wf(s: Seq<GameObject>) -> bool {
    (forall|i: int| 0 <= i < s.len() ==> (#[trigger] s[i]).id == Some(i as GameObjectId))
        && (forall|i: int| 0 <= i < s.len() ==> (#[trigger] s[i]).wf()) && spec_links_wf(s)
}

/// The indices the render traversal of the subtree rooted at `i`
/// collects: nothing when the root is inactive, else the root itself
/// (when it carries a renderer) followed by its children's collections
/// in order.
pub open spec fn spec_visit_obj(s: Seq<GameObject>, i: int) -> Seq<int>
    decreases s.len() - i, (if 0 <= i < s.len() {
        s[i].children@.len() + 1
    } else {
        1
    }),
{
    if 0 <= i < s.len() && s[i].active {
        let own = if spec_renderer_in(s[i].components@) is Some {
            seq![i]
        } else {
            Seq::<int>::empty()
        };
        own + spec_visit_kids(s, i, 0)
    } else {
        Seq::<int>::empty()
    }
}

/// The indices collected from children `k..` of object `i`.
pub open spec fn spec_visit_kids(s: Seq<GameObject>, i: int, k: int) -> Seq<int>
    decreases s.len() - i, (if 0 <= i < s.len() {
        s[i].children@.len() - k
    } else {
        0
    }),
{
    if 0 <= i < s.len() && 0 <= k < s[i].children@.len() {
        let c = s[i].children@[k] as int;
        (if i < c < s.len() {
            spec_visit_obj(s, c)
        } else {
            Seq::<int>::empty()
        }) + spec_visit_kids(s, i, k + 1)
    } else {
        Seq::<int>::empty()
    }
}

/// The indices collected from the roots at positions `j..`.
pub open spec fn spec_visit_roots(s: Seq<GameObject>, j: int) -> Seq<int>
    decreases s.len() - j + 1,
{
    if 0 <= j < s.len() {
        (if s[j].parent is None {
            spec_visit_obj(s, j)
        } else {
            Seq::<int>::empty()
        }) + spec_visit_roots(s, j + 1)
    } else {
        Seq::<int>::empty()
    }
}

/// The indices one full render traversal collects, in order.
pub open spec fn spec_render_indices(s: Seq<GameObject>) -> Seq<int> {
    spec_visit_roots(s, 0)
}

/// The drawable handle object `i` contributes (zero when it has none;
/// collected indices always have one).
pub open spec fn spec_obj_handle(s: Seq<GameObject>, i: int) -> u64 {
    match spec_renderer_in(s[i].components@) {
        Some(h) => h,
        None => 0,
    }
}

/// The drawable handles of the objects at `idxs`, in order.
pub open spec fn spec_handles(s: Seq<GameObject>, idxs: Seq<int>) -> Seq<u64> {
    idxs.map_values(|i: int| spec_obj_handle(s, i))
}

/// Handle extraction distributes over concatenation.
proof fn lemma_handles_distribute(s: Seq<GameObject>, a: Seq<int>, b: Seq<int>)
    ensures
        spec_handles(s, a + b) == spec_handles(s, a) + spec_handles(s, b),
{
    assert(spec_handles(s, a + b) =~= spec_handles(s, a) + spec_handles(s, b));
}

/// Membership in a concatenation is membership in either part.
proof fn lemma_concat_contains(a: Seq<int>, b: Seq<int>, x: int)
    ensures
        (a + b).contains(x) <==> a.contains(x) || b.contains(x),
{
    if (a + b).contains(x) {
        let idx = choose|idx: int| 0 <= idx < (a + b).len() && (a + b)[idx] == x;
        if idx < a.len() {
            assert(a[idx] == x);
        } else {
            assert(b[idx - a.len()] == x);
        }
    }
    if a.contains(x) {
        let idx = choose|idx: int| 0 <= idx < a.len() && a[idx] == x;
        assert((a + b)[idx] == x);
    }
    if b.contains(x) {
        let idx = choose|idx: int| 0 <= idx < b.len() && b[idx] == x;
        assert((a + b)[a.len() + idx] == x);
    }
}

/// The object is active and so is every ancestor above it: the condition
/// under which render traversal reaches it.
pub open spec fn spec_on_active_path(s: Seq<GameObject>, i: int) -> bool
    decreases i,
{
    0 <= i < s.len() && s[i].active && match s[i].parent {
        None => true,
        Some(p) => 0 <= (p as int) < i && spec_on_active_path(s, p as int),
    }
}

/// The ancestors of `i` (its parent chain) are all active; `i` itself
/// may be anything.
pub open spec fn spec_ancestors_active(s: Seq<GameObject>, i: int) -> bool {
    0 <= i < s.len() && match s[i].parent {
        None => true,
        Some(p) => 0 <= (p as int) < i && spec_on_active_path(s, p as int),
    }
}

/// `a` lies on the parent chain of `d` (or is `d` itself): `d` belongs
/// to the subtree rooted at `a`.
pub open spec fn spec_has_ancestor(s: Seq<GameObject>, d: int, a: int) -> bool
    decreases d,
{
    0 <= d < s.len() && (d == a || match s[d].parent {
        None => false,
        Some(p) => 0 <= (p as int) < d && spec_has_ancestor(s, p as int, a),
    })
}

/// Everything the subtree traversal at `i` collects lies on an active
/// path, provided `i`'s own ancestors are active.
proof fn lemma_visit_obj_active(s: Seq<GameObject>, i: int, d: int)
    requires
        spec_links_wf(s),
        spec_ancestors_active(s, i),
        spec_visit_obj(s, i).contains(d),
    ensures
        spec_on_active_path(s, d),
    decreases s.len() - i, (if 0 <= i < s.len() {
        s[i].children@.len() + 1
    } else {
        1
    }),
{
    if 0 <= i < s.len() && s[i].active {
        let own = if spec_renderer_in(s[i].components@) is Some {
            seq![i]
        } else {
            Seq::<int>::empty()
        };
        lemma_concat_contains(own, spec_visit_kids(s, i, 0), d);
        if own.contains(d) {
            assert(d == i);
            assert(spec_on_active_path(s, i));
        } else {
            assert(spec_on_active_path(s, i));
            lemma_visit_kids_active(s, i, 0, d);
        }
    }
}

/// Everything collected from children `k..` of `i` lies on an active
/// path, provided `i` itself lies on one.
proof fn lemma_visit_kids_active(s: Seq<GameObject>, i: int, k: int, d: int)
    requires
        spec_links_wf(s),
        0 <= i < s.len(),
        spec_on_active_path(s, i),
        spec_visit_kids(s, i, k).contains(d),
    ensures
        spec_on_active_path(s, d),
    decreases s.len() - i, (if 0 <= i < s.len() {
        s[i].children@.len() - k
    } else {
        0
    }),
{
    if 0 <= k < s[i].children@.len() {
        let c = s[i].children@[k] as int;
        let head = if i < c < s.len() {
            spec_visit_obj(s, c)
        } else {
            Seq::<int>::empty()
        };
        lemma_concat_contains(head, spec_visit_kids(s, i, k + 1), d);
        if head.contains(d) {
            assert(i < c < s.len());
            assert(s[c].parent == Some(i as GameObjectId));
            assert(spec_ancestors_active(s, c));
            lemma_visit_obj_active(s, c, d);
        } else {
            lemma_visit_kids_active(s, i, k + 1, d);
        }
    }
}

/// Everything the root traversal from `j` collects lies on an active path.
proof fn lemma_visit_roots_active(s: Seq<GameObject>, j: int, d: int)
    requires
        spec_links_wf(s),
        spec_visit_roots(s, j).contains(d),
    ensures
        spec_on_active_path(s, d),
    decreases s.len() - j + 1,
{
    if 0 <= j < s.len() {
        let head = if s[j].parent is None {
            spec_visit_obj(s, j)
        } else {
            Seq::<int>::empty()
        };
        lemma_concat_contains(head, spec_visit_roots(s, j + 1), d);
        if head.contains(d) {
            assert(s[j].parent is None);
            assert(spec_ancestors_active(s, j));
            lemma_visit_obj_active(s, j, d);
        } else {
            lemma_visit_roots_active(s, j + 1, d);
        }
    }
}

/// On an active path, every ancestor is active.
proof fn lemma_active_path_ancestor(s: Seq<GameObject>, d: int, g: int)
    requires
        spec_on_active_path(s, d),
        spec_has_ancestor(s, d, g),
    ensures
        0 <= g < s.len() ==> s[g].active,
    decreases d,
{
    if d != g {
        match s[d].parent {
            Some(p) => {
                lemma_active_path_ancestor(s, p as int, g);
            },
            None => {},
        }
    }
}

/// The child of `a` that the parent chain of `d` runs through:
/// meaningful when `a` is a strict ancestor of `d`.
pub open spec fn spec_chain_child(s: Seq<GameObject>, d: int, a: int) -> int
    decreases d,
{
    if 0 <= d < s.len() && s[d].parent is Some {
        let p = s[d].parent.unwrap() as int;
        if p == a {
            d
        } else if 0 <= p < d {
            spec_chain_child(s, p, a)
        } else {
            d
        }
    } else {
        d
    }
}

/// For a strict ancestor `a` of `d`, the chain child of `a` lies on the
/// chain of `d`, has `a` as its parent, and sits strictly between them.
proof fn lemma_chain_child(s: Seq<GameObject>, d: int, a: int)
    requires
        s.len() <= usize::MAX,
        spec_has_ancestor(s, d, a),
        d != a,
    ensures
        0 <= a < s.len(),
        ({
            let c = spec_chain_child(s, d, a);
            a < c <= d && 0 <= c < s.len() && s[c].parent == Some(a as GameObjectId)
                && spec_has_ancestor(s, d, c)
        }),
    decreases d,
{
    let p = s[d].parent.unwrap() as int;
    if p != a {
        lemma_chain_child(s, p, a);
        assert(spec_has_ancestor(s, d, spec_chain_child(s, p, a)));
    } else {
        assert(spec_has_ancestor(s, d, d));
    }
}

/// Whatever the subtree traversal of a child collects, the traversal
/// of its active parent collects as well.
proof fn lemma_visit_kids_cover_child(s: Seq<GameObject>, a: int, j: int, k: int, d: int)
    requires
        spec_links_wf(s),
        0 <= a < s.len(),
        0 <= j <= k < s[a].children@.len(),
        spec_visit_obj(s, s[a].children@[k] as int).contains(d),
    ensures
        spec_visit_kids(s, a, j).contains(d),
    decreases k - j,
{
    let c = s[a].children@[j] as int;
    let head = if a < c < s.len() {
        spec_visit_obj(s, c)
    } else {
        Seq::<int>::empty()
    };
    lemma_concat_contains(head, spec_visit_kids(s, a, j + 1), d);
    if j == k {
        assert(head == spec_visit_obj(s, c));
    } else {
        lemma_visit_kids_cover_child(s, a, j + 1, k, d);
    }
}

/// Whatever the subtree traversal collects at a child, the traversal
/// of its active parent collects as well.
proof fn lemma_visit_obj_covers_child(s: Seq<GameObject>, a: int, c: int, d: int)
    requires
        s.len() <= usize::MAX,
        spec_links_wf(s),
        0 <= a < s.len(),
        s[a].active,
        0 <= c < s.len(),
        s[c].parent == Some(a as GameObjectId),
        spec_visit_obj(s, c).contains(d),
    ensures
        spec_visit_obj(s, a).contains(d),
{
    assert(s[c].parent is Some);
    assert(s[a].children@.contains(c as GameObjectId));
    let idx = choose|idx: int|
        0 <= idx < s[a].children@.len() && s[a].children@[idx] == (c as GameObjectId);
    assert(s[a].children@[idx] as int == c);
    lemma_visit_kids_cover_child(s, a, 0, idx, d);
    let own = if spec_renderer_in(s[a].components@) is Some {
        seq![a]
    } else {
        Seq::<int>::empty()
    };
    lemma_concat_contains(own, spec_visit_kids(s, a, 0), d);
}

/// Every ancestor's subtree traversal collects `d`, provided `d` lies
/// on an active path and carries a renderer.
proof fn lemma_ancestor_visit_contains(s: Seq<GameObject>, d: int, a: int)
    requires
        s.len() <= usize::MAX,
        spec_links_wf(s),
        spec_on_active_path(s, d),
        spec_renderer_in(s[d].components@) is Some,
        spec_has_ancestor(s, d, a),
    ensures
        spec_visit_obj(s, a).contains(d),
    decreases d - a,
{
    if a == d {
        let own = seq![d];
        assert(own[0] == d);
        lemma_concat_contains(own, spec_visit_kids(s, d, 0), d);
    } else {
        lemma_chain_child(s, d, a);
        let c = spec_chain_child(s, d, a);
        lemma_ancestor_visit_contains(s, d, c);
        lemma_active_path_ancestor(s, d, a);
        lemma_visit_obj_covers_child(s, a, c, d);
    }
}

/// The root above `d`: the end of its parent chain.
pub open spec fn spec_root_of(s: Seq<GameObject>, d: int) -> int
    decreases d,
{
    if 0 <= d < s.len() && s[d].parent is Some && 0 <= (s[d].parent.unwrap() as int) < d {
        spec_root_of(s, s[d].parent.unwrap() as int)
    } else {
        d
    }
}

/// The root above an object on an active path is a root, an ancestor,
/// and in range.
proof fn lemma_root_of(s: Seq<GameObject>, d: int)
    requires
        spec_on_active_path(s, d),
    ensures
        ({
            let r = spec_root_of(s, d);
            0 <= r <= d && r < s.len() && s[r].parent is None && spec_has_ancestor(s, d, r)
        }),
    decreases d,
{
    if s[d].parent is Some {
        let p = s[d].parent.unwrap() as int;
        lemma_root_of(s, p);
        assert(spec_has_ancestor(s, d, spec_root_of(s, p)));
    } else {
        assert(spec_has_ancestor(s, d, d));
    }
}

/// What a root's traversal collects, the whole root walk collects.
proof fn lemma_visit_roots_cover(s: Seq<GameObject>, j: int, r: int, d: int)
    requires
        0 <= j <= r < s.len(),
        s[r].parent is None,
        spec_visit_obj(s, r).contains(d),
    ensures
        spec_visit_roots(s, j).contains(d),
    decreases s.len() - j,
{
    let head = if s[j].parent is None {
        spec_visit_obj(s, j)
    } else {
        Seq::<int>::empty()
    };
    lemma_concat_contains(head, spec_visit_roots(s, j + 1), d);
    if j < r {
        lemma_visit_roots_cover(s, j + 1, r, d);
    }
}

/// The render traversal is exact: it collects precisely the objects
/// that carry a renderer and whose whole parent chain, themselves
/// included, is active.
pub proof fn lemma_render_indices_exact(s: Seq<GameObject>, d: int)
    requires
        s.len() <= usize::MAX,
        spec_links_wf(s),
    ensures
        spec_render_indices(s).contains(d) <==> (spec_on_active_path(s, d) && spec_renderer_in(
            s[d].components@,
        ) is Some),
{
    if spec_render_indices(s).contains(d) {
        lemma_visit_roots_active(s, 0, d);
        lemma_render_indices_have_renderers(s, 0, d);
    }
    if spec_on_active_path(s, d) && spec_renderer_in(s[d].components@) is Some {
        lemma_root_of(s, d);
        let r = spec_root_of(s, d);
        lemma_ancestor_visit_contains(s, d, r);
        lemma_visit_roots_cover(s, 0, r, d);
    }
}

/// Everything the root walk collects carries a renderer.
proof fn lemma_render_indices_have_renderers(s: Seq<GameObject>, j: int, d: int)
    requires
        spec_visit_roots(s, j).contains(d),
    ensures
        0 <= d < s.len() && spec_renderer_in(s[d].components@) is Some,
    decreases s.len() - j + 1,
{
    if 0 <= j < s.len() {
        let head = if s[j].parent is None {
            spec_visit_obj(s, j)
        } else {
            Seq::<int>::empty()
        };
        lemma_concat_contains(head, spec_visit_roots(s, j + 1), d);
        if head.contains(d) {
            lemma_visit_obj_renderers(s, j, d);
        } else {
            lemma_render_indices_have_renderers(s, j + 1, d);
        }
    }
}

/// Everything a subtree traversal collects carries a renderer.
proof fn lemma_visit_obj_renderers(s: Seq<GameObject>, i: int, d: int)
    requires
        spec_visit_obj(s, i).contains(d),
    ensures
        0 <= d < s.len() && spec_renderer_in(s[d].components@) is Some,
    decreases s.len() - i, (if 0 <= i < s.len() {
        s[i].children@.len() + 1
    } else {
        1
    }),
{
    if 0 <= i < s.len() && s[i].active {
        let own = if spec_renderer_in(s[i].components@) is Some {
            seq![i]
        } else {
            Seq::<int>::empty()
        };
        lemma_concat_contains(own, spec_visit_kids(s, i, 0), d);
        if !own.contains(d) {
            lemma_visit_kids_renderers(s, i, 0, d);
        }
    }
}

/// Everything collected from children carries a renderer.
proof fn lemma_visit_kids_renderers(s: Seq<GameObject>, i: int, k: int, d: int)
    requires
        spec_visit_kids(s, i, k).contains(d),
    ensures
        0 <= d < s.len() && spec_renderer_in(s[d].components@) is Some,
    decreases s.len() - i, (if 0 <= i < s.len() {
        s[i].children@.len() - k
    } else {
        0
    }),
{
    if 0 <= i < s.len() && 0 <= k < s[i].children@.len() {
        let c = s[i].children@[k] as int;
        let head = if i < c < s.len() {
            spec_visit_obj(s, c)
        } else {
            Seq::<int>::empty()
        };
        lemma_concat_contains(head, spec_visit_kids(s, i, k + 1), d);
        if head.contains(d) {
            lemma_visit_obj_renderers(s, c, d);
        } else {
            lemma_visit_kids_renderers(s, i, k + 1, d);
        }
    }
}

/// An inactive object excludes itself and its entire subtree from the
/// render traversal: no object whose parent chain passes through an
/// inactive object is collected.
pub proof fn lemma_inactive_subtree_excluded(s: Seq<GameObject>, g: int, d: int)
    requires
        spec_links_wf(s),
        0 <= g < s.len(),
        !s[g].active,
        spec_has_ancestor(s, d, g),
    ensures
        !spec_render_indices(s).contains(d),
{
    if spec_render_indices(s).contains(d) {
        lemma_visit_roots_active(s, 0, d);
        lemma_active_path_ancestor(s, d, g);
        assert(false);
    }
}

/// Walks the subtree rooted at `i`, appending the drawable handles of
/// visited renderer-carrying objects to `out`.
fn collect_obj(objects: &Vec<GameObject>, i: usize, out: &mut Vec<u64>)
    requires
        spec_links_wf(objects@),
        i < objects@.len(),
    ensures
        final(out)@ == old(out)@ + spec_handles(objects@, spec_visit_obj(objects@, i as int)),
    decreases objects@.len() - i,
{
    let ghost s = objects@;
    let ghost ii = i as int;
    if !objects[i].active {
        proof {
            assert(spec_visit_obj(s, ii) == Seq::<int>::empty());
            assert(out@ =~= old(out)@ + spec_handles(s, spec_visit_obj(s, ii)));
        }
        return ;
    }
    let ghost own = if spec_renderer_in(s[ii].components@) is Some {
        seq![ii]
    } else {
        Seq::<int>::empty()
    };
    match objects[i].renderer_handle() {
        Some(h) => {
            out.push(h);
            proof {
                assert(spec_handles(s, own) =~= seq![h]);
                assert(out@ =~= old(out)@ + spec_handles(s, own));
            }
        },
        None => {
            proof {
                assert(spec_handles(s, own) =~= Seq::<u64>::empty());
                assert(out@ =~= old(out)@ + spec_handles(s, own));
            }
        },
    }
    proof {
        assert(spec_visit_obj(s, ii) == own + spec_visit_kids(s, ii, 0));
        lemma_handles_distribute(s, own, spec_visit_kids(s, ii, 0));
    }
    let mut k: usize = 0;
    while k < objects[i].children.len()
        invariant
            spec_links_wf(objects@),
            i < objects@.len(),
            s == objects@,
            ii == i as int,
            k <= s[ii].children@.len(),
            out@ + spec_handles(s, spec_visit_kids(s, ii, k as int)) == old(out)@ + spec_handles(
                s,
                spec_visit_obj(s, ii),
            ),
        decreases s[ii].children@.len() - k,
    {
        let c = objects[i].children[k];
        proof {
            assert(ii < c as int && (c as int) < s.len());
        }
        let ghost pre = out@;
        collect_obj(objects, c, out);
        proof {
            let head = spec_visit_obj(s, c as int);
            let tail = spec_visit_kids(s, ii, k as int + 1);
            assert(spec_visit_kids(s, ii, k as int) == head + tail);
            lemma_handles_distribute(s, head, tail);
            assert(out@ + spec_handles(s, tail) =~= pre + spec_handles(s, spec_visit_kids(
                s,
                ii,
                k as int,
            )));
        }
        k = k + 1;
    }
    proof {
        assert(spec_visit_kids(s, ii, k as int) == Seq::<int>::empty());
        assert(out@ + spec_handles(s, spec_visit_kids(s, ii, k as int)) =~= out@);
    }
}

/// `speed * dt / 1000` rounded toward zero: the rotation a rotator
/// applies over `dt` milliseconds, in milliradians, before clamping.
pub open spec fn spec_rotator_angle(speed: int, dt: int) -> int {
    if speed >= 0 {
        (speed * dt) / 1000
    } else {
        -(((-speed) * dt) / 1000)
    }
}

/// Clamps an unbounded angle into `i64`.
pub open spec fn spec_clamp_i64(x: int) -> int {
    if x > i64::MAX {
        i64::MAX as int
    } else if x < i64::MIN {
        i64::MIN as int
    } else {
        x
    }
}

/// The transform after one component's per-frame update: a rotator adds
/// its angular step around the y axis; other components leave it alone.
pub open spec fn spec_component_update(c: Component, dt: u64, t: Transform) -> Transform {
    match c.kind {
        ComponentKind::Rotator(r) => Transform {
            rotation: Vec3 {
                y: spec_sat_add(
                    t.rotation.y as int,
                    spec_clamp_i64(spec_rotator_angle(r.speed as int, dt as int)),
                ) as i64,
                ..t.rotation
            },
            ..t
        },
        _ => t,
    }
}

/// The transform after components `k..` ran their updates in order.
pub open spec fn spec_update_components(cs: Seq<Component>, k: int, dt: u64, t: Transform)
    -> Transform
    decreases cs.len() - k,
{
    if 0 <= k < cs.len() {
        spec_update_components(cs, k + 1, dt, spec_component_update(cs[k], dt, t))
    } else {
        t
    }
}

/// The object after one update pass: an active object's transform takes
/// every component's update in storage order; an inactive object is
/// untouched.
pub open spec fn spec_updated_object(o: GameObject, dt: u64) -> GameObject {
    if o.active {
        GameObject { transform: spec_update_components(o.components@, 0, dt, o.transform), ..o }
    } else {
        o
    }
}

/// An inactive object is untouched by the update pass: its own
/// updateable components are skipped, exactly as it is skipped by the
/// render traversal.
pub proof fn lemma_inactive_object_not_updated(o: GameObject, dt: u64)
    requires
        !o.active,
    ensures
        spec_updated_object(o, dt) == o,
{
}

/// The clamped rotation step of a rotator with `speed` over `dt`.
fn rotator_angle(speed: i64, dt: u64) -> (a: i64)
    ensures
        a as int == spec_clamp_i64(spec_rotator_angle(speed as int, dt as int)),
{
    let neg = speed < 0;
    let mag: u128 = if neg {
        (-(speed as i128)) as u128
    } else {
        speed as u128
    };
    proof {
        assert(mag * (dt as u128) <= (u64::MAX as u128) * (u64::MAX as u128)) by (nonlinear_arith)
            requires
                mag <= u64::MAX,
                dt <= u64::MAX,
        ;
    }
    let prod: u128 = (mag * (dt as u128)) / 1000;
    if neg {
        if prod >= 9_223_372_036_854_775_808u128 {
            i64::MIN
        } else {
            (-(prod as i128)) as i64
        }
    } else {
        if prod > i64::MAX as u128 {
            i64::MAX
        } else {
            prod as i64
        }
    }
}

/// The transform after one component's per-frame update.
fn component_update(c: &Component, dt: u64, t: Transform) -> (r: Transform)
    ensures
        r == spec_component_update(*c, dt, t),
{
    match c.kind {
        ComponentKind::Rotator(rot) => {
            let angle = rotator_angle(rot.speed, dt);
            t.rotate_y(angle)
        },
        _ => t,
    }
}

/// Copies a light list.
fn copy_lights(v: &Vec<SceneLight>) -> (r: Vec<SceneLight>)
    ensures
        r@ == v@,
{
    let mut out: Vec<SceneLight> = Vec::new();
    let mut i: usize = 0;
    while i < v.len()
        invariant
            i <= v@.len(),
            out@.len() == i,
            forall|k: int| 0 <= k < i ==> out@[k] == v@[k],
        decreases v@.len() - i,
    {
        out.push(v[i]);
        i = i + 1;
    }
    proof {
        assert(out@ =~= v@);
    }
    out
}

/// How the scene clears the target surface before drawing: a mid grey
/// and full depth, milli-scaled.
#[derive(Clone, Copy, Debug, PartialEq, Eq, Structural)]
pub struct ClearState {
    /// Red clear channel, milli-scaled.
    pub r: u32,
    /// Green clear channel, milli-scaled.
    pub g: u32,
    /// Blue clear channel, milli-scaled.
    pub b: u32,
    /// Alpha clear channel, milli-scaled.
    pub a: u32,
    /// Depth clear value, milli-scaled.
    pub depth: u32,
}

impl ClearState {
    /// The scene's clear state: mid grey, opaque, full depth.
    pub fn scene_default() -> (c: ClearState)
        ensures
            c == (ClearState { r: 500, g: 500, b: 500, a: 1000, depth: 1000 }),
    {
        ClearState { r: 500, g: 500, b: 500, a: 1000, depth: 1000 }
    }
}

/// Everything one frame asks the rendering backend to draw: the camera
/// to view through, the clear state, the drawable handles collected by
/// the render traversal, and the lights to realize.
#[derive(Debug)]
pub struct RenderPlan {
    /// The active camera at the end of the frame.
    pub camera: Camera,
    /// How to clear the surface before drawing.
    pub clear: ClearState,
    /// Drawable handles in traversal order.
    pub renderables: Vec<u64>,
    /// The scene's lights, to realize against the graphics context.
    pub lights: Vec<SceneLight>,
}

/// Why a frame or an activation failed: an error from a scene's own
/// hooks.
#[derive(Debug)]
pub enum SceneError {
    /// The scene's asset loading failed.
    LoadFailed(String),
    /// The scene's setup hook failed.
    SetupFailed(String),
    /// The scene's per-frame update hook failed.
    UpdateFailed(String),
}

/// The hooks a scene implementation supplies: its per-frame logic, its
/// one-time asset loading and setup, and its exit notification. The
/// scene manager drives them; each receives the tag of the scene it is
/// called for. Implementations must leave the scene well-formed, which
/// every public scene operation does.
pub trait SceneHooks {
    /// Per-frame scene logic; runs before the update pass and may mutate
    /// the object graph.
    fn update(&mut self, tag: u64, scene: &mut Scene) -> (r: Result<(), SceneError>)
        requires
            old(scene).wf(),
        ensures
            final(scene).wf(),
    ;

    /// One-time asset loading, run on first activation.
    fn load_assets(&mut self, tag: u64) -> (r: Result<(), SceneError>);

    /// One-time setup, run after asset loading on first activation.
    fn setup(&mut self, tag: u64, scene: &mut Scene) -> (r: Result<(), SceneError>)
        requires
            old(scene).wf(),
        ensures
            final(scene).wf(),
    ;

    /// Notification that the scene stops being active.
    fn exit(&mut self, tag: u64, scene: &mut Scene)
        requires
            old(scene).wf(),
        ensures
            final(scene).wf(),
    ;
}

/// Hooks that do nothing: for scenes whose whole behaviour is their
/// object graph.
pub struct NoopHooks;

impl SceneHooks for NoopHooks {
    fn update(&mut self, tag: u64, scene: &mut Scene) -> (r: Result<(), SceneError>)
        ensures
            *final(scene) == *old(scene),
            r is Ok,
    {
        Ok(())
    }

    fn load_assets(&mut self, tag: u64) -> (r: Result<(), SceneError>)
        ensures
            r is Ok,
    {
        Ok(())
    }

    fn setup(&mut self, tag: u64, scene: &mut Scene) -> (r: Result<(), SceneError>)
        ensures
            *final(scene) == *old(scene),
            r is Ok,
    {
        Ok(())
    }

    fn exit(&mut self, tag: u64, scene: &mut Scene)
        ensures
            *final(scene) == *old(scene),
    {
    }
}

/// A hierarchy of game objects with its cameras and lights.
#[derive(Debug)]
pub struct Scene {
    /// Display name of the scene.
    pub name: String,
    /// The objects, stored under their ids: position `i` holds the
    /// object with id `i`.
    pub objects: Vec<GameObject>,
    /// The scene's cameras.
    pub camera_manager: CameraManager,
    /// The authoritative id allocator; also keeps each object's
    /// insertion-time template. Mutation after insertion goes through
    /// `objects`.
    pub id_arena: id_arena::Arena<GameObject>,
    /// The frame bound for the duration of one full update.
    pub frame: Option<Frame>,
    /// The scene's lights, realized by the backend at render time.
    pub lights: Vec<SceneLight>,
}

impl Scene {
    /// The arena and the object storage are in sync, every object is
    /// stored under its id with consistent hierarchy links, and the
    /// camera manager is well-formed.
    pub open spec fn wf(self) -> bool {
        arena_len(self.id_arena) == self.objects@.len() && spec_objects_wf(self.objects@)
            && self.camera_manager.wf()
    }

    /// An empty scene with the given name.
    pub fn new(name: String) -> (s: Scene)
        ensures
            s.wf(),
            s.name@ == name@,
            s.objects@.len() == 0,
            s.camera_manager.cameras@.len() == 0,
            s.camera_manager.active_camera is None,
            s.frame is None,
            s.lights@.len() == 0,
    {
        Scene {
            name,
            objects: Vec::new(),
            camera_manager: CameraManager::new(),
            id_arena: arena_new(),
            frame: None,
            lights: Vec::new(),
        }
    }

    /// Inserts a detached object as a root: allocates the next id,
    /// stamps it onto a copy stored in both the arena and the object
    /// storage, and returns it. The inserted object has no parent and
    /// no children.
    pub fn add_object(&mut self, temp: GameObject) -> (id: GameObjectId)
        requires
            old(self).wf(),
            temp.wf(),
            old(self).objects@.len() < usize::MAX,
        ensures
            final(self).wf(),
            id == old(self).objects@.len(),
            final(self).objects@.len() == old(self).objects@.len() + 1,
            forall|j: int|
                0 <= j < old(self).objects@.len() ==> #[trigger] final(self).objects@[j] == old(self).objects@[j],
            final(self).objects@[id as int].id == Some(id),
            final(self).objects@[id as int].name@ == temp.name@,
            final(self).objects@[id as int].transform == temp.transform,
            final(self).objects@[id as int].active == temp.active,
            final(self).objects@[id as int].parent is None,
            final(self).objects@[id as int].children@ == Seq::<GameObjectId>::empty(),
            final(self).objects@[id as int].components@ == temp.components@,
            final(self).name@ == old(self).name@,
            final(self).camera_manager == old(self).camera_manager,
            final(self).frame == old(self).frame,
            final(self).lights@ == old(self).lights@,
    {
        let id = self.insert_object(temp, None);
        proof {
            lemma_insert_keeps_wf(old(self).objects@, self.objects@, None);
        }
        id
    }

    /// Inserts a detached object as a child of `parent_id`: the new id
    /// is appended to the parent's children and the child links back.
    /// When no object carries `parent_id` the object is still inserted
    /// and addressable, merely without a parent link.
    pub fn add_child_object(&mut self, parent_id: GameObjectId, temp: GameObject) -> (id:
        GameObjectId)
        requires
            old(self).wf(),
            temp.wf(),
            old(self).objects@.len() < usize::MAX,
        ensures
            final(self).wf(),
            id == old(self).objects@.len(),
            final(self).objects@.len() == old(self).objects@.len() + 1,
            final(self).objects@[id as int].id == Some(id),
            final(self).objects@[id as int].name@ == temp.name@,
            final(self).objects@[id as int].transform == temp.transform,
            final(self).objects@[id as int].active == temp.active,
            final(self).objects@[id as int].children@ == Seq::<GameObjectId>::empty(),
            final(self).objects@[id as int].components@ == temp.components@,
            if (parent_id as int) < old(self).objects@.len() {
                final(self).objects@[id as int].parent == Some(parent_id) && final(self).objects@[parent_id as int].children@ == old(self).objects@[parent_id as int].children@.push(id) && (forall|j: int|
                    0 <= j < old(self).objects@.len() && j != parent_id as int
                        ==> #[trigger] final(self).objects@[j] == old(self).objects@[j]) && final(self).objects@[parent_id as int].components@ == old(self).objects@[parent_id as int].components@ && final(self).objects@[parent_id as int].active == old(self).objects@[parent_id as int].active
                    && final(self).objects@[parent_id as int].transform == old(self).objects@[parent_id as int].transform
            } else {
                final(self).objects@[id as int].parent is None && (forall|j: int|
                    0 <= j < old(self).objects@.len() ==> #[trigger] final(self).objects@[j] == old(self).objects@[j])
            },
            final(self).name@ == old(self).name@,
            final(self).camera_manager == old(self).camera_manager,
            final(self).frame == old(self).frame,
            final(self).lights@ == old(self).lights@,
    {
        if parent_id < self.objects.len() {
            let id = self.insert_object(temp, Some(parent_id));
            let ghost mid = self.objects@;
            let parent = &mut self.objects[parent_id];
            parent.children.push(id);
            proof {
                let olds = old(self).objects@;
                let s = self.objects@;
                let pi = parent_id as int;
                let n = olds.len() as int;
                assert(s == mid.update(pi, s[pi]));
                assert(s[pi].children@ == mid[pi].children@.push(id));
                assert(s[pi].id == mid[pi].id && s[pi].parent == mid[pi].parent
                    && s[pi].components@ == mid[pi].components@ && s[pi].active
                    == mid[pi].active && s[pi].transform == mid[pi].transform);
                lemma_insert_child_keeps_wf(olds, mid, s, parent_id);
            }
            id
        } else {
            let id = self.insert_object(temp, None);
            proof {
                lemma_insert_keeps_wf(old(self).objects@, self.objects@, None);
            }
            id
        }
    }

    /// The object with `id`, or nothing while no such object exists.
    pub fn query(&self, id: GameObjectId) -> (r: Option<&GameObject>)
        ensures
            match r {
                Some(g) => (id as int) < self.objects@.len() && *g == self.objects@[id as int],
                None => (id as int) >= self.objects@.len(),
            },
    {
        if id < self.objects.len() {
            Some(&self.objects[id])
        } else {
            None
        }
    }

    /// The frame bound for the current full update. Asking outside one
    /// is a programming error, so a frame must be bound.
    pub fn frame(&self) -> (f: &Frame)
        requires
            self.frame is Some,
        ensures
            *f == self.frame.unwrap(),
    {
        self.frame.as_ref().unwrap()
    }

    /// All objects, stored under their ids.
    pub fn objects(&self) -> (r: &Vec<GameObject>)
        ensures
            r@ == self.objects@,
    {
        &self.objects
    }

    /// Adds a light for the backend to realize each frame.
    pub fn add_light(&mut self, light: SceneLight)
        ensures
            final(self).lights@ == old(self).lights@.push(light),
            final(self).name@ == old(self).name@,
            final(self).objects@ == old(self).objects@,
            final(self).camera_manager == old(self).camera_manager,
            final(self).id_arena == old(self).id_arena,
            final(self).frame == old(self).frame,
            old(self).wf() ==> final(self).wf(),
    {
        self.lights.push(light);
    }

    /// Runs the per-frame update pass: every active object's updateable
    /// components step its transform in storage order; inactive objects
    /// are untouched.
    pub fn update(&mut self, delta_time: u64)
        requires
            old(self).wf(),
        ensures
            final(self).wf(),
            final(self).objects@.len() == old(self).objects@.len(),
            forall|i: int|
                0 <= i < old(self).objects@.len() ==> #[trigger] final(self).objects@[i]
                    == spec_updated_object(old(self).objects@[i], delta_time),
            final(self).name@ == old(self).name@,
            final(self).camera_manager == old(self).camera_manager,
            final(self).id_arena == old(self).id_arena,
            final(self).frame == old(self).frame,
            final(self).lights@ == old(self).lights@,
    {
        let ghost olds = old(self).objects@;
        let n = self.objects.len();
        let mut i: usize = 0;
        while i < n
            invariant
                n == olds.len(),
                self.objects@.len() == n,
                i <= n,
                arena_len(self.id_arena) == olds.len(),
                spec_objects_wf(olds),
                self.camera_manager == old(self).camera_manager,
                self.camera_manager.wf(),
                self.id_arena == old(self).id_arena,
                self.name@ == old(self).name@,
                self.frame == old(self).frame,
                self.lights@ == old(self).lights@,
                forall|j: int|
                    0 <= j < i ==> #[trigger] self.objects@[j] == spec_updated_object(
                        olds[j],
                        delta_time,
                    ),
                forall|j: int| i <= j < n ==> #[trigger] self.objects@[j] == olds[j],
            decreases n - i,
        {
            if self.objects[i].active {
                let ghost cs = self.objects@[i as int].components@;
                let ghost t0 = self.objects@[i as int].transform;
                let mut t = self.objects[i].transform;
                let mut k: usize = 0;
                let m = self.objects[i].components.len();
                while k < m
                    invariant
                        i < self.objects@.len(),
                        cs == self.objects@[i as int].components@,
                        m == cs.len(),
                        k <= m,
                        spec_update_components(cs, 0, delta_time, t0) == spec_update_components(
                            cs,
                            k as int,
                            delta_time,
                            t,
                        ),
                    decreases m - k,
                {
                    t = component_update(&self.objects[i].components[k], delta_time, t);
                    k = k + 1;
                }
                let ghost pre = self.objects@;
                let obj = &mut self.objects[i];
                obj.transform = t;
                proof {
                    assert(self.objects@ =~= pre.update(
                        i as int,
                        spec_updated_object(olds[i as int], delta_time),
                    ));
                }
            } else {
                proof {
                    assert(self.objects@[i as int] == spec_updated_object(
                        olds[i as int],
                        delta_time,
                    ));
                }
            }
            i = i + 1;
        }
        proof {
            lemma_update_pass_keeps_wf(olds, self.objects@, delta_time);
        }
    }

    /// One full render traversal: the drawable handles of every
    /// renderer-carrying object reached from a root along active nodes,
    /// in traversal order.
    pub fn collect_renderables(&self) -> (out: Vec<u64>)
        requires
            self.wf(),
        ensures
            out@ == spec_handles(self.objects@, spec_render_indices(self.objects@)),
    {
        let ghost s = self.objects@;
        let mut out: Vec<u64> = Vec::new();
        let mut j: usize = 0;
        while j < self.objects.len()
            invariant
                s == self.objects@,
                spec_links_wf(s),
                j <= s.len(),
                out@ + spec_handles(s, spec_visit_roots(s, j as int)) == spec_handles(
                    s,
                    spec_visit_roots(s, 0),
                ),
            decreases s.len() - j,
        {
            let ghost head = if s[j as int].parent is None {
                spec_visit_obj(s, j as int)
            } else {
                Seq::<int>::empty()
            };
            proof {
                assert(spec_visit_roots(s, j as int) == head + spec_visit_roots(s, j as int + 1));
                lemma_handles_distribute(s, head, spec_visit_roots(s, j as int + 1));
            }
            let ghost pre = out@;
            if self.objects[j].parent.is_none() {
                collect_obj(&self.objects, j, &mut out);
            } else {
                proof {
                    assert(spec_handles(s, head) =~= Seq::<u64>::empty());
                    assert(out@ =~= pre + spec_handles(s, head));
                }
            }
            proof {
                assert(out@ == pre + spec_handles(s, head));
            }
            j = j + 1;
        }
        proof {
            assert(spec_visit_roots(s, j as int) == Seq::<int>::empty());
            assert(out@ + spec_handles(s, spec_visit_roots(s, j as int)) =~= out@);
        }
        out
    }

    /// One whole frame: binds the frame, runs the scene's own update
    /// hook, delivers events to the active camera, runs the update
    /// pass, collects the render batch, and — when an active camera
    /// exists — assembles the render plan; without one, rendering is
    /// skipped silently. The frame is unbound at the end, also when the
    /// hook fails.
    pub fn full_update<H: SceneHooks>(&mut self, tag: u64, hooks: &mut H, frame: &mut Frame) -> (r:
        Result<Option<RenderPlan>, SceneError>)
        requires
            old(self).wf(),
        ensures
            final(self).wf(),
            final(self).frame is None,
            match r {
                Ok(opt) => (opt is Some <==> final(self).camera_manager.active_camera is Some)
                    && match opt {
                    Some(plan) => plan.renderables@ == spec_handles(
                        final(self).objects@,
                        spec_render_indices(final(self).objects@),
                    ) && plan.lights@ == final(self).lights@ && plan.clear == (ClearState {
                        r: 500,
                        g: 500,
                        b: 500,
                        a: 1000,
                        depth: 1000,
                    }) && exists|k: int|
                        0 <= k < final(self).camera_manager.cameras@.len() && #[trigger] final(self).camera_manager.cameras@[k] == (
                            final(self).camera_manager.active_camera.unwrap(),
                            plan.camera,
                        ),
                    None => true,
                },
                Err(_) => true,
            },
    {
        let snapshot = frame.clone();
        self.frame = Some(snapshot);
        match hooks.update(tag, self) {
            Err(e) => {
                self.frame = None;
                return Err(e);
            },
            Ok(()) => {},
        }
        self.camera_manager.handle_events(frame);
        self.update(frame.delta_time());
        let renderables = self.collect_renderables();
        let result = match self.camera_manager.get_active_camera() {
            Some(cam) => {
                let camera = *cam;
                Some(
                    RenderPlan {
                        camera,
                        clear: ClearState::scene_default(),
                        renderables,
                        lights: copy_lights(&self.lights),
                    },
                )
            },
            None => None,
        };
        self.frame = None;
        Ok(result)
    }

    /// Convenience: adds a camera to the scene's camera manager.
    pub fn add_camera(&mut self, camera: Camera) -> (id: CameraId)
        requires
            old(self).wf(),
            old(self).camera_manager.next_id < CameraId::MAX,
        ensures
            final(self).wf(),
            id == old(self).camera_manager.next_id,
            final(self).camera_manager.cameras@ == old(self).camera_manager.cameras@.push(
                (id, camera),
            ),
            final(self).camera_manager.active_camera == if old(self).camera_manager.active_camera is None {
                Some(id)
            } else {
                old(self).camera_manager.active_camera
            },
            final(self).objects@ == old(self).objects@,
            final(self).name@ == old(self).name@,
            final(self).frame == old(self).frame,
            final(self).lights@ == old(self).lights@,
            final(self).id_arena == old(self).id_arena,
    {
        self.camera_manager.add_camera(camera)
    }

    /// Convenience: the active camera of the scene's camera manager,
    /// or nothing while no camera exists.
    pub fn get_active_camera(&self) -> (r: Option<&Camera>)
        requires
            self.wf(),
        ensures
            r is Some <==> self.camera_manager.active_camera is Some,
            match r {
                Some(c) => exists|k: int|
                    0 <= k < self.camera_manager.cameras@.len()
                        && #[trigger] self.camera_manager.cameras@[k] == (
                        self.camera_manager.active_camera.unwrap(),
                        *c,
                    ),
                None => self.camera_manager.cameras@.len() == 0,
            },
    {
        self.camera_manager.get_active_camera()
    }

    /// Convenience: makes the camera with `id` active; reports whether
    /// it exists. Nothing changes when it does not.
    pub fn set_active_camera(&mut self, id: CameraId) -> (r: bool)
        requires
            old(self).wf(),
        ensures
            final(self).wf(),
            r == has_camera_id(old(self).camera_manager.cameras@, id),
            r ==> final(self).camera_manager == (CameraManager {
                active_camera: Some(id),
                ..old(self).camera_manager
            }) && final(self).objects@ == old(self).objects@ && final(self).name@ == old(self).name@ && final(self).frame == old(self).frame && final(self).lights@ == old(self).lights@ && final(self).id_arena == old(self).id_arena,
            !r ==> *final(self) == *old(self),
    {
        self.camera_manager.set_active_camera(id)
    }

    /// Convenience: removes the camera with `id` from the scene's
    /// camera manager and hands it back; nothing happens when no camera
    /// carries that id. When the active camera is removed the first
    /// remaining camera becomes active, or none while no camera is left.
    pub fn remove_camera(&mut self, id: CameraId) -> (r: Option<Camera>)
        requires
            old(self).wf(),
        ensures
            final(self).wf(),
            final(self).objects@ == old(self).objects@,
            final(self).name@ == old(self).name@,
            final(self).frame == old(self).frame,
            final(self).lights@ == old(self).lights@,
            final(self).id_arena == old(self).id_arena,
            final(self).camera_manager.next_id == old(self).camera_manager.next_id,
            match r {
                Some(cam) => has_camera_id(old(self).camera_manager.cameras@, id) && exists|
                    k: int,
                |
                    0 <= k < old(self).camera_manager.cameras@.len() && (#[trigger] old(self).camera_manager.cameras@[k]) == (id, cam) && final(self).camera_manager.cameras@ == old(self).camera_manager.cameras@.remove(k),
                None => !has_camera_id(old(self).camera_manager.cameras@, id) && *final(self)
                    == *old(self),
            },
            r is Some ==> final(self).camera_manager.active_camera == if old(self).camera_manager.active_camera == Some(id) {
                if final(self).camera_manager.cameras@.len() > 0 {
                    Some(final(self).camera_manager.cameras@[0].0)
                } else {
                    None
                }
            } else {
                old(self).camera_manager.active_camera
            },
            r is Some ==> (final(self).camera_manager.cameras@.len() > 0 <==> final(self).camera_manager.active_camera is Some),
    {
        self.camera_manager.remove_camera(id)
    }

    /// Convenience: builds the default orbit camera for `viewport` and
    /// adds it to the scene.
    pub fn setup_default_camera(&mut self, viewport: Viewport) -> (id: CameraId)
        requires
            old(self).wf(),
            old(self).camera_manager.next_id < CameraId::MAX,
            viewport.width <= 2_000_000,
            viewport.height <= 2_000_000,
        ensures
            final(self).wf(),
            id == old(self).camera_manager.next_id,
            final(self).objects@ == old(self).objects@,
            final(self).camera_manager.active_camera is Some,
            final(self).camera_manager.cameras@.len() == old(self).camera_manager.cameras@.len()
                + 1,
            ({
                let cam = final(self).camera_manager.cameras@.last();
                cam.0 == id && cam.1.camera_type == CameraType::Perspective && cam.1.control
                    == (ControlType::Orbit { min_distance: 1000, max_distance: 100_000 })
                    && cam.1.target == (Vec3 { x: 0, y: 0, z: 0 }) && cam.1.viewport == viewport
                    && cam.1.auto_viewport
            }),
    {
        let camera = CameraPresets::orbit_around_origin().build(viewport);
        let id = self.add_camera(camera);
        proof {
            assert(self.camera_manager.cameras@.last() == (id, camera));
        }
        id
    }

    /// Convenience: same as [`Scene::setup_default_camera`], under the
    /// name callers of the orbit preset use.
    pub fn setup_orbit_camera(&mut self, viewport: Viewport) -> (id: CameraId)
        requires
            old(self).wf(),
            old(self).camera_manager.next_id < CameraId::MAX,
            viewport.width <= 2_000_000,
            viewport.height <= 2_000_000,
        ensures
            final(self).wf(),
            id == old(self).camera_manager.next_id,
            final(self).objects@ == old(self).objects@,
            final(self).camera_manager.active_camera is Some,
            final(self).camera_manager.cameras@.len() == old(self).camera_manager.cameras@.len()
                + 1,
            ({
                let cam = final(self).camera_manager.cameras@.last();
                cam.0 == id && cam.1.camera_type == CameraType::Perspective && cam.1.control
                    == (ControlType::Orbit { min_distance: 1000, max_distance: 100_000 })
                    && cam.1.target == (Vec3 { x: 0, y: 0, z: 0 }) && cam.1.viewport == viewport
                    && cam.1.auto_viewport
            }),
    {
        self.setup_default_camera(viewport)
    }

    /// Convenience: an orbit camera roughly `distance` milli units from
    /// the origin, added to the scene.
    pub fn setup_orbit_camera_at_distance(&mut self, distance: u32, viewport: Viewport) -> (id:
        CameraId)
        requires
            old(self).wf(),
            old(self).camera_manager.next_id < CameraId::MAX,
            distance <= 1_000_000_000,
            viewport.width <= 2_000_000,
            viewport.height <= 2_000_000,
        ensures
            final(self).wf(),
            id == old(self).camera_manager.next_id,
            final(self).objects@ == old(self).objects@,
            final(self).camera_manager.active_camera is Some,
            final(self).camera_manager.cameras@.len() == old(self).camera_manager.cameras@.len()
                + 1,
            ({
                let cam = final(self).camera_manager.cameras@.last();
                cam.0 == id && cam.1.camera_type == CameraType::Perspective && cam.1.control
                    == (ControlType::Orbit { min_distance: 1000, max_distance: 100_000 })
                    && cam.1.target == (Vec3 { x: 0, y: 0, z: 0 }) && cam.1.viewport == viewport
                    && cam.1.auto_viewport
            }),
    {
        let camera = CameraPresets::orbit_around_origin_at_distance(distance).build(viewport);
        let id = self.add_camera(camera);
        proof {
            assert(self.camera_manager.cameras@.last() == (id, camera));
        }
        id
    }

    /// Convenience: a top-down camera at the given height (milli
    /// units), added to the scene.
    pub fn setup_top_down_camera(&mut self, height: i64, viewport: Viewport) -> (id: CameraId)
        requires
            old(self).wf(),
            old(self).camera_manager.next_id < CameraId::MAX,
            -1_000_000_000 <= height <= 1_000_000_000,
            viewport.width <= 2_000_000,
            viewport.height <= 2_000_000,
        ensures
            final(self).wf(),
            id == old(self).camera_manager.next_id,
            final(self).objects@ == old(self).objects@,
            final(self).camera_manager.active_camera is Some,
            final(self).camera_manager.cameras@.len() == old(self).camera_manager.cameras@.len()
                + 1,
            ({
                let cam = final(self).camera_manager.cameras@.last();
                cam.0 == id && cam.1.camera_type == CameraType::Orthographic && cam.1.control
                    == ControlType::Inert && cam.1.target == (Vec3 { x: 0, y: 0, z: 0 })
                    && cam.1.up == (Vec3 { x: 0, y: 0, z: -1000i64 }) && cam.1.offset == (Vec3 {
                    x: 0,
                    y: height,
                    z: 0,
                }) && cam.1.viewport == viewport && cam.1.auto_viewport
            }),
    {
        let camera = CameraPresets::top_down_at_height(height).build(viewport);
        let id = self.add_camera(camera);
        proof {
            assert(self.camera_manager.cameras@.last() == (id, camera));
        }
        id
    }

    /// Inserts `temp` with a fresh id and the given parent link; the
    /// caller wires up the parent's children list and re-establishes
    /// the hierarchy invariants.
    fn insert_object(&mut self, temp: GameObject, parent: Option<GameObjectId>) -> (id:
        GameObjectId)
        requires
            old(self).wf(),
            temp.wf(),
            old(self).objects@.len() < usize::MAX,
            match parent {
                Some(p) => (p as int) < old(self).objects@.len(),
                None => true,
            },
        ensures
            id == old(self).objects@.len(),
            final(self).objects@.len() == old(self).objects@.len() + 1,
            forall|j: int|
                0 <= j < old(self).objects@.len() ==> #[trigger] final(self).objects@[j] == old(self).objects@[j],
            final(self).objects@[id as int].id == Some(id),
            final(self).objects@[id as int].name@ == temp.name@,
            final(self).objects@[id as int].transform == temp.transform,
            final(self).objects@[id as int].active == temp.active,
            final(self).objects@[id as int].parent == parent,
            final(self).objects@[id as int].children@ == Seq::<GameObjectId>::empty(),
            final(self).objects@[id as int].components@ == temp.components@,
            final(self).objects@[id as int].wf(),
            arena_len(final(self).id_arena) == old(self).objects@.len() + 1,
            final(self).name@ == old(self).name@,
            final(self).camera_manager == old(self).camera_manager,
            final(self).frame == old(self).frame,
            final(self).lights@ == old(self).lights@,
    {
        let id: GameObjectId = arena_count(&self.id_arena);
        proof {
            assert(id == self.objects@.len());
        }
        let stamped = GameObject {
            id: Some(id),
            name: temp.name,
            transform: temp.transform,
            active: temp.active,
            parent,
            children: Vec::new(),
            components: temp.components,
        };
        let template = stamped.clone();
        let allocated = arena_alloc(&mut self.id_arena, template);
        self.objects.push(stamped);
        proof {
            assert(allocated == id);
        }
        id
    }
}

/// Inserting a fresh root object preserves the object invariants.
proof fn lemma_insert_keeps_wf(olds: Seq<GameObject>, s: Seq<GameObject>, parent: Option<
    GameObjectId,
>)
    requires
        spec_objects_wf(olds),
        s.len() == olds.len() + 1,
        forall|j: int| 0 <= j < olds.len() ==> #[trigger] s[j] == olds[j],
        s[olds.len() as int].id == Some(olds.len() as GameObjectId),
        s[olds.len() as int].parent is None,
        s[olds.len() as int].children@ == Seq::<GameObjectId>::empty(),
        s[olds.len() as int].wf(),
    ensures
        spec_objects_wf(s),
{
    let n = olds.len() as int;
    assert forall|i: int| 0 <= i < s.len() implies (#[trigger] s[i]).id == Some(
        i as GameObjectId,
    ) by {
        if i < n {
            assert(s[i] == olds[i]);
        }
    }
    assert forall|i: int| 0 <= i < s.len() implies (#[trigger] s[i]).wf() by {
        if i < n {
            assert(s[i] == olds[i]);
            assert(olds[i].wf());
        }
    }
    assert forall|i: int, k: int|
        0 <= i < s.len() && 0 <= k < s[i].children@.len() implies (i < (
    #[trigger] s[i].children@[k]) as int) && ((s[i].children@[k] as int) < s.len())
        && s[s[i].children@[k] as int].parent == Some(i as GameObjectId) by {
        if i < n {
            assert(s[i] == olds[i]);
            let c = olds[i].children@[k] as int;
            assert(i < c < olds.len());
            assert(s[c] == olds[c]);
        }
    }
    assert forall|i: int, a: int, b: int|
        0 <= i < s.len() && 0 <= a < b < s[i].children@.len() implies (
    #[trigger] s[i].children@[a]) < (#[trigger] s[i].children@[b]) by {
        if i < n {
            assert(s[i] == olds[i]);
        }
    }
    assert forall|c: int| 0 <= c < s.len() && (#[trigger] s[c].parent) is Some implies {
        let p = s[c].parent.unwrap() as int;
        0 <= p < c && s[p].children@.contains(c as GameObjectId)
    } by {
        if c < n {
            assert(s[c] == olds[c]);
            let p = olds[c].parent.unwrap() as int;
            assert(0 <= p < c && olds[p].children@.contains(c as GameObjectId));
            assert(s[p] == olds[p]);
        }
    }
}

/// Linking a freshly inserted child into its parent's children list
/// preserves the object invariants.
proof fn lemma_insert_child_keeps_wf(
    olds: Seq<GameObject>,
    mid: Seq<GameObject>,
    s: Seq<GameObject>,
    parent_id: GameObjectId,
)
    requires
        olds.len() < usize::MAX,
        spec_objects_wf(olds),
        (parent_id as int) < olds.len(),
        mid.len() == olds.len() + 1,
        forall|j: int| 0 <= j < olds.len() ==> #[trigger] mid[j] == olds[j],
        mid[olds.len() as int].id == Some(olds.len() as GameObjectId),
        mid[olds.len() as int].parent == Some(parent_id),
        mid[olds.len() as int].children@ == Seq::<GameObjectId>::empty(),
        mid[olds.len() as int].wf(),
        s == mid.update(parent_id as int, s[parent_id as int]),
        s[parent_id as int].children@ == mid[parent_id as int].children@.push(
            olds.len() as GameObjectId,
        ),
        s[parent_id as int].id == mid[parent_id as int].id,
        s[parent_id as int].parent == mid[parent_id as int].parent,
        s[parent_id as int].components@ == mid[parent_id as int].components@,
    ensures
        spec_objects_wf(s),
{
    let n = olds.len() as int;
    let pi = parent_id as int;
    let newid = n as GameObjectId;
    assert(s.len() == n + 1);
    assert(mid[pi] == olds[pi]);
    assert(s[pi].children@ == olds[pi].children@.push(newid));
    assert(forall|j: int| 0 <= j < s.len() && j != pi ==> #[trigger] s[j] == mid[j]);
    assert forall|i: int| 0 <= i < s.len() implies (#[trigger] s[i]).id == Some(
        i as GameObjectId,
    ) by {
        if i != pi {
            assert(s[i] == mid[i]);
            if i < n {
                assert(mid[i] == olds[i]);
            }
        } else {
            assert(s[pi].id == mid[pi].id && mid[pi] == olds[pi]);
        }
    }
    assert forall|i: int| 0 <= i < s.len() implies (#[trigger] s[i]).wf() by {
        if i != pi {
            assert(s[i] == mid[i]);
            if i < n {
                assert(mid[i] == olds[i]);
                assert(olds[i].wf());
            }
        } else {
            assert(s[pi].components@ == olds[pi].components@);
            assert(olds[pi].wf());
        }
    }
    assert forall|i: int, k: int|
        0 <= i < s.len() && 0 <= k < s[i].children@.len() implies (i < (
    #[trigger] s[i].children@[k]) as int) && ((s[i].children@[k] as int) < s.len())
        && s[s[i].children@[k] as int].parent == Some(i as GameObjectId) by {
        if i == pi {
            if k < olds[pi].children@.len() {
                assert(s[i].children@[k] == olds[pi].children@[k]);
                let c = olds[pi].children@[k] as int;
                assert(pi < c < n);
                assert(s[c] == mid[c] && mid[c] == olds[c]);
            } else {
                assert(s[i].children@[k] == newid);
                assert(s[n] == mid[n]);
            }
        } else if i < n {
            assert(s[i] == mid[i] && mid[i] == olds[i]);
            let c = olds[i].children@[k] as int;
            assert(i < c < n);
            if c == pi {
                assert(s[pi].parent == olds[pi].parent);
            } else {
                assert(s[c] == mid[c] && mid[c] == olds[c]);
            }
        } else {
            assert(s[i] == mid[i]);
        }
    }
    assert forall|i: int, a: int, b: int|
        0 <= i < s.len() && 0 <= a < b < s[i].children@.len() implies (
    #[trigger] s[i].children@[a]) < (#[trigger] s[i].children@[b]) by {
        if i == pi {
            if b < olds[pi].children@.len() {
                assert(s[i].children@[a] == olds[pi].children@[a]);
                assert(s[i].children@[b] == olds[pi].children@[b]);
            } else {
                assert(s[i].children@[b] == newid);
                assert(s[i].children@[a] == olds[pi].children@[a]);
                assert((olds[pi].children@[a] as int) < n);
            }
        } else if i < n {
            assert(s[i] == mid[i] && mid[i] == olds[i]);
        } else {
            assert(s[i] == mid[i]);
        }
    }
    assert forall|c: int| 0 <= c < s.len() && (#[trigger] s[c].parent) is Some implies {
        let p = s[c].parent.unwrap() as int;
        0 <= p < c && s[p].children@.contains(c as GameObjectId)
    } by {
        if c == n {
            assert(s[n] == mid[n]);
            assert(s[n].parent == Some(parent_id));
            assert(s[pi].children@[s[pi].children@.len() - 1] == newid);
            assert(s[pi].children@.contains(newid));
        } else if c == pi {
            assert(s[pi].parent == olds[pi].parent);
            if olds[pi].parent is Some {
                let p = olds[pi].parent.unwrap() as int;
                assert(0 <= p < pi && olds[p].children@.contains(parent_id));
                assert(s[p] == mid[p] && mid[p] == olds[p]);
            }
        } else if c < n {
            assert(s[c] == mid[c] && mid[c] == olds[c]);
            let p = olds[c].parent.unwrap() as int;
            assert(0 <= p < c && olds[p].children@.contains(c as GameObjectId));
            if p == pi {
                let idx = choose|idx: int|
                    0 <= idx < olds[pi].children@.len() && olds[pi].children@[idx] == (
                    c as GameObjectId);
                assert(s[pi].children@[idx] == (c as GameObjectId));
                assert(s[pi].children@.contains(c as GameObjectId));
            } else {
                assert(s[p] == mid[p] && mid[p] == olds[p]);
            }
        }
    }
}

/// The update pass preserves the object invariants: it only rewrites
/// transforms.
proof fn lemma_update_pass_keeps_wf(olds: Seq<GameObject>, s: Seq<GameObject>, dt: u64)
    requires
        spec_objects_wf(olds),
        s.len() == olds.len(),
        forall|j: int|
            0 <= j < olds.len() ==> #[trigger] s[j] == spec_updated_object(olds[j], dt),
    ensures
        spec_objects_wf(s),
{
    assert forall|j: int|
        0 <= j < s.len() implies (#[trigger] s[j]).id == olds[j].id && s[j].parent
        == olds[j].parent && s[j].children@ == olds[j].children@ && s[j].components@
        == olds[j].components@ && s[j].active == olds[j].active by {
        assert(s[j] == spec_updated_object(olds[j], dt));
    }
    assert forall|i: int| 0 <= i < s.len() implies (#[trigger] s[i]).id == Some(
        i as GameObjectId,
    ) by {}
    assert forall|i: int| 0 <= i < s.len() implies (#[trigger] s[i]).wf() by {
        assert(olds[i].wf());
    }
    assert forall|i: int, k: int|
        0 <= i < s.len() && 0 <= k < s[i].children@.len() implies (i < (
    #[trigger] s[i].children@[k]) as int) && ((s[i].children@[k] as int) < s.len())
        && s[s[i].children@[k] as int].parent == Some(i as GameObjectId) by {
        assert(s[i].children@ == olds[i].children@);
        let c = olds[i].children@[k] as int;
        assert(i < c < olds.len());
        assert(s[c].parent == olds[c].parent);
    }
    assert forall|i: int, a: int, b: int|
        0 <= i < s.len() && 0 <= a < b < s[i].children@.len() implies (
    #[trigger] s[i].children@[a]) < (#[trigger] s[i].children@[b]) by {
        assert(s[i].children@ == olds[i].children@);
    }
    assert forall|c: int| 0 <= c < s.len() && (#[trigger] s[c].parent) is Some implies {
        let p = s[c].parent.unwrap() as int;
        0 <= p < c && s[p].children@.contains(c as GameObjectId)
    } by {
        assert(s[c].parent == olds[c].parent);
        let p = olds[c].parent.unwrap() as int;
        assert(0 <= p < c && olds[p].children@.contains(c as GameObjectId));
        assert(s[p].children@ == olds[p].children@);
    }
}

} // verus!
