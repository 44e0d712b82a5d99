//! A thread's own heap, found once and kept.
//!
//! The allocator on top of this crate gives every thread a heap of its own
//! out of a registry. A thread starts with the empty heap, which holds
//! nothing. The first time the thread asks for memory it is assigned a heap
//! by the registry, under an id; the id is stored in the thread's slot, and
//! from then on every call of that thread goes to that heap without asking
//! the registry again. A heap is never given back.
//!
//! The slot is owned by its thread alone. The registry and the heaps are not
//! part of this crate: the functions here decide which heap a call runs on,
//! and the caller carries the decision out.

use vstd::prelude::*;

verus! {

/// A thread's slot for the id of its heap.
#[derive(Debug)]
pub struct HeapSlot {
    id: Option<u64>,
}

/// The heap that a call runs on.
#[derive(Clone, Copy, Debug, PartialEq, Eq, Structural, Hash)]
pub enum Target {
    /// The empty heap that every thread starts with.
    Empty,
    /// The heap that the thread was assigned, by its id.
    Assigned(u64),
    /// A heap that the registry is yet to assign: the caller asks the
    /// registry for one and stores its id with [`fallback`].
    Fresh,
}

impl HeapSlot {
    /// The id of the thread's heap, if it was assigned one.
    pub closed spec fn handle(self) -> Option<u64> {
        self.id
    }

    /// The slot of a thread that has no heap yet.
    pub fn new() -> (slot: HeapSlot)
        ensures
            slot.handle() is None,
    {
        HeapSlot { id: None }
    }

    /// The id of the thread's heap, if it was assigned one.
    pub fn get(&self) -> (id: Option<u64>)
        ensures
            id == self.handle(),
    {
        self.id
    }
}

/// Where a call goes that can do without a heap of the thread's own: to the
/// thread's heap if it has one, else to the empty heap.
pub open spec fn route(handle: Option<u64>) -> Target {
    match handle {
        Some(id) => Target::Assigned(id),
        None => Target::Empty,
    }
}

/// Where a call goes that needs a heap of the thread's own: to the thread's
/// heap if it has one, else to one that is yet to be assigned.
pub open spec fn route_lazy(handle: Option<u64>) -> Target {
    match handle {
        Some(id) => Target::Assigned(id),
        None => Target::Fresh,
    }
}

/// The heap for a call that can do without a heap of the thread's own: the
/// thread's heap if it has one, else the empty heap. The registry is not
/// asked.
pub fn with(slot: &HeapSlot) -> (target: Target)
    ensures
        target == route(slot.handle()),
{
    match slot.id {
        Some(id) => Target::Assigned(id),
        None => Target::Empty,
    }
}

/// The heap for a call that needs a heap of the thread's own: the thread's
/// heap if it has one, else one that is yet to be assigned.
pub fn with_lazy(slot: &HeapSlot) -> (target: Target)
    ensures
        target == route_lazy(slot.handle()),
{
    match slot.id {
        Some(id) => Target::Assigned(id),
        None => Target::Fresh,
    }
}

/// Called once for every heap that a thread is assigned, before the heap is
/// used. Nothing is to be done.
pub fn init(_id: u64) {
}

/// Stores the id of the heap that the registry assigned to the thread, and
/// returns the heap to go on with.
pub fn fallback(slot: &mut HeapSlot, id: u64) -> (target: Target)
    ensures
        final(slot).handle() == Some(id),
        target == Target::Assigned(id),
{
    init(id);
    slot.id = Some(id);
    Target::Assigned(id)
}

/// Once a thread has its heap, every call of it runs on that heap: none is
/// sent to the empty heap, and none asks the registry again.
pub proof fn lemma_assigned_once(handle: Option<u64>)
    requires
        handle is Some,
    ensures
        route(handle) == Target::Assigned(handle.unwrap()),
        route_lazy(handle) == Target::Assigned(handle.unwrap()),
{
}

} // verus!
