//! The scene's id allocator: an arena from the `id_arena` crate.
//!
//! The arena allocates game-object ids sequentially and keeps the
//! insertion-time template of each object. Ids are the arena indices;
//! the scene's own lookup storage is indexed by them, and the two stay
//! in sync because both grow by exactly one at each insertion.

use vstd::prelude::*;

use crate::game_object::GameObject;

verus! {

#[verifier::external_type_specification]
#[verifier::external_body]
#[verifier::reject_recursive_types(T)]
#[verifier::reject_recursive_types(A)]
pub struct ExArena<T, A>(id_arena::Arena<T, A>);

#[verifier::external_type_specification]
#[verifier::external_body]
#[verifier::reject_recursive_types(T)]
pub struct ExDefaultArenaBehavior<T>(id_arena::DefaultArenaBehavior<T>);

/// How many objects the arena has allocated.
pub uninterp spec fn arena_len(a: id_arena::Arena<GameObject>) -> nat;

/// Relies on `id_arena::Arena::new`: a new arena holds no items.
#[verifier::external_body]
pub fn arena_new() -> (a: id_arena::Arena<GameObject>)
    ensures
        arena_len(a) == 0,
{
    id_arena::Arena::new()
}

/// Relies on `id_arena::Arena::len`: the number of items allocated so far.
#[verifier::external_body]
pub fn arena_count(a: &id_arena::Arena<GameObject>) -> (n: usize)
    ensures
        n as nat == arena_len(*a),
{
    a.len()
}

/// Relies on `id_arena::Arena::alloc` and `id_arena::Id::index`: `alloc`
/// pushes the item at position `len` and returns an id whose `index` is
/// that position. `alloc` panics once the item count overflows `usize`,
/// so the arena must not be full.
#[verifier::external_body]
pub fn arena_alloc(a: &mut id_arena::Arena<GameObject>, item: GameObject) -> (i: usize)
    requires
        arena_len(*old(a)) < usize::MAX,
    ensures
        i as nat == arena_len(*old(a)),
        arena_len(*final(a)) == arena_len(*old(a)) + 1,
{
    a.alloc(item).index()
}

} // verus!
