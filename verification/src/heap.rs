//! The bump allocator shared between threads.

use crate::base::{AllocError, Chunk, StaticHandle};
use crate::cursor::{lemma_placement, outcome, place, placement, top_after, Placement};
use crate::layout::Layout;
use crate::sys::Region;
use std::sync::atomic::AtomicUsize;
use std::sync::atomic::Ordering;
use vstd::prelude::*;

verus! {

/// How one attempt at the shared cursor ended.
#[derive(Debug, PartialEq, Eq)]
pub enum Attempt {
    /// The cursor was moved and the block is the caller's.
    Won(Chunk),
    /// The block cannot be placed at the value that was tried.
    Refused(AllocError),
    /// Another thread moved the cursor first; it now holds this value.
    Lost(usize),
}

/// What a thread does after one attempt.
#[derive(Debug, PartialEq, Eq)]
pub enum Next {
    /// The request is answered.
    Done(Result<Chunk, AllocError>),
    /// The request is tried again at this value of the cursor.
    Retry(usize),
}

/// What follows an attempt that was made at `top`.
///
/// A block that was won is the answer, and so is the error of a block that
/// was refused. A lost attempt is tried again at the value that it found in
/// the cursor, if that value lies above `top`. The cursor of a region never
/// moves down: where the value found is not above `top`, the region is not
/// in a state to be carved from, and the answer is `OutOfMemory`.
pub open spec fn next_after(top: usize, attempt: Attempt) -> Next {
    match attempt {
        Attempt::Won(chunk) => Next::Done(Ok(chunk)),
        Attempt::Refused(e) => Next::Done(Err(e)),
        Attempt::Lost(seen) => if seen > top {
            Next::Retry(seen)
        } else {
            Next::Done(Err(AllocError::OutOfMemory))
        },
    }
}

/// Computes [`next_after`].
pub fn after_attempt(top: usize, attempt: Attempt) -> (next: Next)
    ensures
        next == next_after(top, attempt),
{
    match attempt {
        Attempt::Won(chunk) => Next::Done(Ok(chunk)),
        Attempt::Refused(e) => Next::Done(Err(e)),
        Attempt::Lost(seen) => if seen > top {
            Next::Retry(seen)
        } else {
            Next::Done(Err(AllocError::OutOfMemory))
        },
    }
}

/// A bump allocator over a fixed region that any number of threads may use
/// at once, without locks.
///
/// The cursor lives in an atomic. A thread reads it, places its block at the
/// value it read, and moves the cursor to the block's end with one
/// compare-and-swap. Where another thread was faster, the swap fails and
/// reports the value the cursor holds now, and the thread places its block
/// again at that value.
///
/// What a thread reads from the cursor is not known before it runs, so the
/// contracts here say what holds for whatever value was read; what follows
/// from a given value is [`placement`](crate::cursor::placement).
pub struct SgxHeap {
    region: Region,
    top: AtomicUsize,
}

impl SgxHeap {
    /// The region that blocks are carved from.
    ///
    /// The cursor has no function of this kind. Its value is no part of the
    /// allocator's value: it changes under calls that take `&self`, by this
    /// thread and by others.
    pub closed spec fn region(self) -> Region {
        self.region
    }

    /// An allocator over `region` whose cursor is not set.
    pub fn new(region: Region) -> (heap: SgxHeap)
        ensures
            heap.region() == region,
    {
        SgxHeap { region, top: AtomicUsize::new(0) }
    }

    /// Sets the cursor to the region's base if no thread has done so, and
    /// returns the value that the cursor then holds, which is a set cursor:
    /// the base where this thread set it, else what it held already.
    pub fn heap_top(&self) -> (top: usize)
        ensures
            top != 0,
    {
        let base: usize = self.region.base_address();
        top_after(base, compare_exchange(&self.top, 0, base))
    }

    /// Tries once to hand out a block of `layout` placed at `top`, a value
    /// that the caller read from the cursor.
    ///
    /// Where [`placement`](crate::cursor::placement) refuses the block, so
    /// does the attempt, and the cursor is not touched. Otherwise the cursor
    /// is moved from `top` to the block's end in one compare-and-swap: the
    /// block is won if the swap took place, and lost to another thread if
    /// the cursor did not hold `top` any more.
    pub fn bump_at(&self, top: usize, layout: Layout) -> (attempt: Attempt)
        ensures
            forall|e: AllocError|
                placement(top, layout, self.region()) == Err::<Placement, AllocError>(e) <==> attempt
                    == Attempt::Refused(e),
            attempt matches Attempt::Won(chunk) ==> {
                &&& outcome(top, layout, self.region()) == Ok::<Chunk, AllocError>(chunk)
                &&& chunk.layout == layout
                &&& chunk.addr % layout.align == 0
                &&& chunk.inside(self.region())
            },
            attempt matches Attempt::Lost(seen) ==> seen != top,
    {
        proof {
            lemma_placement(top, layout, self.region);
        }
        let p = match place(top, layout, &self.region) {
            Err(e) => {
                return Attempt::Refused(e);
            },
            Ok(p) => p,
        };
        match compare_exchange(&self.top, top, p.end) {
            Ok(_) => Attempt::Won(Chunk::new(p.addr, layout, StaticHandle)),
            Err(seen) => Attempt::Lost(seen),
        }
    }

    /// Serves one request: tries at the value of the cursor until a block is
    /// won or refused, going on after each attempt as [`next_after`] says.
    ///
    /// The result is what [`outcome`] gives for some value `top` that this
    /// thread read from the cursor, and a block is handed out only after the
    /// cursor was moved from that `top` to the block's end in one step; or
    /// it is `OutOfMemory`, where a lost attempt found the cursor at or
    /// below the value tried.
    pub fn alloc_inner(&self, layout: Layout) -> (served: Result<Chunk, AllocError>)
        ensures
            !layout.valid() <==> served == Err::<Chunk, AllocError>(AllocError::InvalidLayout),
            served == Err::<Chunk, AllocError>(AllocError::OutOfMemory) || exists|top: usize|
                served == outcome(top, layout, self.region()),
            served matches Ok(chunk) ==> {
                &&& chunk.layout == layout
                &&& chunk.addr % layout.align == 0
                &&& chunk.inside(self.region())
            },
    {
        let mut top: usize = self.heap_top();
        loop
            decreases usize::MAX - top,
        {
            let attempt = self.bump_at(top, layout);
            proof {
                if let Attempt::Refused(e) = attempt {
                    assert(outcome(top, layout, self.region()) == Err::<Chunk, AllocError>(e));
                }
            }
            match after_attempt(top, attempt) {
                Next::Done(served) => {
                    return served;
                },
                Next::Retry(seen) => {
                    top = seen;
                },
            }
        }
    }

    /// Serves one request as [`alloc_inner`](Self::alloc_inner) does.
    ///
    /// The region is resident as a whole, so `_commit` changes nothing.
    pub fn allocate(&self, layout: Layout, _commit: bool) -> (served: Result<Chunk, AllocError>)
        ensures
            !layout.valid() <==> served == Err::<Chunk, AllocError>(AllocError::InvalidLayout),
            served == Err::<Chunk, AllocError>(AllocError::OutOfMemory) || exists|top: usize|
                served == outcome(top, layout, self.region()),
            served matches Ok(chunk) ==> {
                &&& chunk.layout == layout
                &&& chunk.addr % layout.align == 0
                &&& chunk.inside(self.region())
            },
    {
        self.alloc_inner(layout)
    }

    /// Takes a chunk back, which does nothing: the region is never given
    /// up, and the chunk is left as it was.
    pub fn deallocate(chunk: &mut Chunk)
        ensures
            *final(chunk) == *old(chunk),
    {
    }
}

/// The shared allocator as the source of the larger extents that a
/// full-featured allocator carves up.
pub type SgxHeapBump = SgxHeap;

/// Calls `AtomicUsize::compare_exchange` on the cursor, with the ordering
/// `AcqRel` where the exchange takes place and `Acquire` where it does not.
///
/// Not proved, but taken from the documentation of std: `new` is stored
/// exactly when the atomic holds `current`, for this form of the exchange
/// never fails otherwise, and either way the value handed back is the one
/// that the atomic held before the call. So `Ok` carries `current`, and `Err`
/// carries another value. Which of the two comes back is left open: it
/// depends on what the other threads did.
#[verifier::external_body]
fn compare_exchange(cursor: &AtomicUsize, current: usize, new: usize) -> (swapped: Result<
    usize,
    usize,
>)
    ensures
        swapped matches Ok(before) ==> before == current,
        swapped matches Err(before) ==> before != current,
{
    cursor.compare_exchange(current, new, Ordering::AcqRel, Ordering::Acquire)
}

} // verus!
