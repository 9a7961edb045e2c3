//! The arena in which a writer keeps the cursors of its readers.
//!
//! The arena comes from the `vec_arena` crate. Nothing in this file is
//! proved: each function states what the arena's method does to the
//! occupied slots.

use vec_arena::Arena;
use vstd::prelude::*;

verus! {

#[verifier::external_type_specification]
#[verifier::external_body]
#[verifier::reject_recursive_types(T)]
pub struct ExArena<T>(Arena<T>);

/// The occupied slots of an arena of cursors: each identifier with the
/// cursor stored under it.
pub uninterp spec fn arena_slots(arena: Arena<usize>) -> Map<usize, usize>;

/// The slots of an arena in which nothing is stored.
pub open spec fn no_slots() -> Map<usize, usize> {
    Map::empty()
}

/// Whether `entries` lists the occupied slots of `slots`: every entry is
/// an occupied slot with its cursor, and no occupied slot is missing.
pub open spec fn lists_slots(entries: Seq<(usize, usize)>, slots: Map<usize, usize>) -> bool {
    &&& forall|i: int|
        0 <= i < entries.len() ==> slots.contains_pair((#[trigger] entries[i]).0, entries[i].1)
    &&& forall|id: usize| #[trigger]
        slots.contains_key(id) ==> exists|i: int|
            0 <= i < entries.len() && (#[trigger] entries[i]).0 == id
}

/// `Arena::new`: an arena without occupied slots.
#[verifier::external_body]
pub(crate) fn arena_new() -> (arena: Arena<usize>)
    ensures
        arena_slots(arena) == no_slots(),
{
    Arena::new()
}

/// `Arena::insert`: stores `cursor` in a slot that was vacant and returns
/// that slot's identifier; the other slots stay as they were.
#[verifier::external_body]
pub(crate) fn arena_insert(arena: &mut Arena<usize>, cursor: usize) -> (id: usize)
    ensures
        !arena_slots(*old(arena)).contains_key(id),
        arena_slots(*final(arena)) == arena_slots(*old(arena)).insert(id, cursor),
{
    arena.insert(cursor)
}

/// `Arena::get`: the cursor stored under `id`, or `None` where that slot is
/// vacant or beyond the arena.
#[verifier::external_body]
pub(crate) fn arena_get(arena: &Arena<usize>, id: usize) -> (cursor: Option<usize>)
    ensures
        cursor == (if arena_slots(*arena).contains_key(id) {
            Some(arena_slots(*arena)[id])
        } else {
            None
        }),
{
    arena.get(id).copied()
}

/// `IndexMut::index_mut` of the arena, which panics on a vacant slot:
/// replaces the cursor stored under an occupied `id`.
#[verifier::external_body]
pub(crate) fn arena_set(arena: &mut Arena<usize>, id: usize, cursor: usize)
    requires
        arena_slots(*old(arena)).contains_key(id),
    ensures
        arena_slots(*final(arena)) == arena_slots(*old(arena)).insert(id, cursor),
{
    arena[id] = cursor;
}

/// `Arena::remove`: vacates the slot `id` and returns the cursor that was
/// stored in it, or `None` where nothing was; the other slots stay as they
/// were.
#[verifier::external_body]
pub(crate) fn arena_remove(arena: &mut Arena<usize>, id: usize) -> (cursor: Option<usize>)
    ensures
        cursor == (if arena_slots(*old(arena)).contains_key(id) {
            Some(arena_slots(*old(arena))[id])
        } else {
            None
        }),
        arena_slots(*final(arena)) == arena_slots(*old(arena)).remove(id),
{
    arena.remove(id)
}

/// `Arena::len`: the number of occupied slots.
#[verifier::external_body]
pub(crate) fn arena_len(arena: &Arena<usize>) -> (n: usize)
    ensures
        n == arena_slots(*arena).dom().len(),
{
    arena.len()
}

/// `Arena::iter`: walks the slots and hands out each occupied one with
/// its identifier.
#[verifier::external_body]
pub(crate) fn arena_entries(arena: &Arena<usize>) -> (entries: Vec<(usize, usize)>)
    ensures
        lists_slots(entries@, arena_slots(*arena)),
{
    arena.iter().map(|(id, cursor)| (id, *cursor)).collect()
}

} // verus!
