//! The allocator as the rest of the process sees it.
//!
//! [`Custom`] takes the calls of a global allocator and sends each to a heap
//! of the calling thread: it decides which heap a call runs on and what the
//! heap is asked to do, and leaves the heap's work to the heap.

use crate::base::AllocError;
use crate::layout::Layout;
use crate::thread::{route, route_lazy, with, with_lazy, HeapSlot, Target};
use vstd::prelude::*;

verus! {

/// What a heap is asked to do.
#[derive(Clone, Copy, Debug, PartialEq, Eq, Structural, Hash)]
pub enum HeapOp {
    /// Swap the heap's free list for the list of what was freed since.
    Collect { force: bool },
    /// Hand out a block of `layout`, cleared if `zero` is set.
    Allocate { layout: Layout, zero: bool },
    /// Tell the layout of the block at `ptr`.
    LayoutOf { ptr: usize },
    /// Take back the block of `layout` at `ptr`.
    Deallocate { ptr: usize, layout: Layout },
}

/// One call to a heap: which heap, and what it is asked to do.
#[derive(Clone, Copy, Debug, PartialEq, Eq, Structural, Hash)]
pub struct HeapCall {
    pub target: Target,
    pub op: HeapOp,
}

/// The configured allocator: a handle without state of its own. The state
/// is the calling thread's slot, which every call is given.
#[derive(Clone, Copy, Debug, Default, PartialEq, Eq, Hash)]
pub struct Custom;

impl Custom {
    /// Cleans up the thread's heap at once. A thread without a heap has
    /// nothing to clean up: the call goes to the empty heap and no heap is
    /// assigned for it.
    pub fn collect(&self, slot: &HeapSlot, force: bool) -> (call: HeapCall)
        ensures
            call.op == (HeapOp::Collect { force }),
            call.target == route(slot.handle()),
    {
        HeapCall { target: with(slot), op: HeapOp::Collect { force } }
    }

    /// Allocates a block of `layout` from the thread's heap. A thread
    /// without a heap is assigned one first.
    pub fn allocate(&self, slot: &HeapSlot, layout: Layout) -> (call: HeapCall)
        ensures
            call.op == (HeapOp::Allocate { layout, zero: false }),
            call.target == route_lazy(slot.handle()),
    {
        HeapCall { target: with_lazy(slot), op: HeapOp::Allocate { layout, zero: false } }
    }

    /// Allocates a cleared block of `layout` from the thread's heap. A
    /// thread without a heap is assigned one first.
    pub fn allocate_zeroed(&self, slot: &HeapSlot, layout: Layout) -> (call: HeapCall)
        ensures
            call.op == (HeapOp::Allocate { layout, zero: true }),
            call.target == route_lazy(slot.handle()),
    {
        HeapCall { target: with_lazy(slot), op: HeapOp::Allocate { layout, zero: true } }
    }

    /// Asks for the layout of the block at `ptr`.
    pub fn layout_of(&self, slot: &HeapSlot, ptr: usize) -> (call: HeapCall)
        ensures
            call.op == (HeapOp::LayoutOf { ptr }),
            call.target == route(slot.handle()),
    {
        HeapCall { target: with(slot), op: HeapOp::LayoutOf { ptr } }
    }

    /// Gives back the block of `layout` at `ptr`.
    pub fn deallocate(&self, slot: &HeapSlot, ptr: usize, layout: Layout) -> (call: HeapCall)
        ensures
            call.op == (HeapOp::Deallocate { ptr, layout }),
            call.target == route(slot.handle()),
    {
        HeapCall { target: with(slot), op: HeapOp::Deallocate { ptr, layout } }
    }

    /// The call behind a global allocation: as
    /// [`allocate`](Self::allocate).
    pub fn alloc_raw(&self, slot: &HeapSlot, layout: Layout) -> (call: HeapCall)
        ensures
            call == (HeapCall {
                target: route_lazy(slot.handle()),
                op: HeapOp::Allocate { layout, zero: false },
            }),
    {
        self.allocate(slot, layout)
    }

    /// The call behind the global allocator's `alloc_zeroed`: as
    /// [`allocate_zeroed`](Self::allocate_zeroed).
    pub fn alloc_zeroed(&self, slot: &HeapSlot, layout: Layout) -> (call: HeapCall)
        ensures
            call == (HeapCall {
                target: route_lazy(slot.handle()),
                op: HeapOp::Allocate { layout, zero: true },
            }),
    {
        self.allocate_zeroed(slot, layout)
    }

    /// The call behind the global allocator's `dealloc`: none for the null
    /// pointer, else as [`deallocate`](Self::deallocate).
    pub fn dealloc(&self, slot: &HeapSlot, ptr: usize, layout: Layout) -> (call: Option<HeapCall>)
        ensures
            ptr == 0 <==> call is None,
            call matches Some(c) ==> c == (HeapCall {
                target: route(slot.handle()),
                op: HeapOp::Deallocate { ptr, layout },
            }),
    {
        if ptr != 0 {
            Some(self.deallocate(slot, ptr, layout))
        } else {
            None
        }
    }
}

/// The pointer that the global allocator returns for what a heap answered:
/// the block's address, or null where the heap had none.
pub fn as_ptr(served: Result<usize, AllocError>) -> (ptr: usize)
    ensures
        ptr == match served {
            Ok(addr) => addr,
            Err(_) => 0usize,
        },
{
    match served {
        Ok(addr) => addr,
        Err(_) => 0,
    }
}

} // verus!
