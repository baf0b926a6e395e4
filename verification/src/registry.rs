//! The entity-id allocator and the laws of the shared player registry.
//!
//! The registry itself is a plain `Vec<Player>`; callers guard it with one
//! lock, acquired per individual operation (one scan, one append, one
//! mutation) and never held across a blocking read. The allocator is the
//! process-wide counter issuing unique player entity ids, owned by the
//! server state and passed by reference into session handlers.

use vstd::prelude::*;

use crate::player::Player;

verus! {

/// The monotonic counter issuing player entity ids, starting at 1,
/// incremented on each successful login and never reused.
#[derive(Debug, Clone, PartialEq)]
pub struct EntityIdAllocator {
    pub next: i32,
}

impl EntityIdAllocator {
    /// A fresh allocator: the first login receives id 1.
    pub fn new() -> (r: Self)
        ensures
            r.next == 1i32,
    {
        EntityIdAllocator { next: 1 }
    }

    /// Issues the next entity id and advances the counter.
    pub fn allocate(&mut self) -> (r: i32)
        requires
            old(self).next < 0x7fffffff,
        ensures
            r == old(self).next,
            final(self).next == old(self).next + 1,
    {
        let id = self.next;
        self.next = self.next + 1;
        id
    }
}

/// Entity ids are strictly increasing: whatever two successive allocations
/// return (`id1`, then `id2`, each with the counter step `allocate`
/// guarantees), the second id is strictly greater, so no two logins share
/// an id.
pub proof fn lemma_entity_ids_strictly_increase(
    a0: EntityIdAllocator,
    a1: EntityIdAllocator,
    a2: EntityIdAllocator,
    id1: i32,
    id2: i32,
)
    requires
        id1 == a0.next && a1.next == a0.next + 1,
        id2 == a1.next && a2.next == a1.next + 1,
    ensures
        id2 > id1,
        id2 != id1,
{
}

/// Appending a record to the registry loses nothing: every earlier record
/// stands unchanged at its index, and the new record stands at the end.
pub proof fn lemma_append_keeps_records(players: Seq<Player>, p: Player)
    ensures
        players.push(p).len() == players.len() + 1,
        forall|i: int| 0 <= i < players.len() ==> players.push(p)[i] == players[i],
        players.push(p)[players.len() as int] == p,
{
}

} // verus!
