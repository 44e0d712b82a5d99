//! The bump allocator in the hands of a single owner.
//!
//! Where one owner holds the allocator, the cursor is a plain number and
//! nothing moves it but the owner's own requests. Every request then has one
//! answer, which is [`step`]: the answer that a thread of the shared
//! allocator gets whenever no other thread comes between.

use crate::base::{AllocError, Chunk, StaticHandle};
use crate::cursor::{cursor_ok, lemma_placement, place, published, step};
use crate::layout::Layout;
use crate::sys::Region;
use vstd::prelude::*;

verus! {

/// A bump allocator over a fixed region, for one owner at a time.
///
/// It holds the region and the cursor. The cursor starts unset; the first
/// request sets it to the region's base, and every block that is handed out
/// moves it to the block's end. Nothing is ever taken back.
#[derive(Debug)]
pub struct OwnedHeap {
    region: Region,
    top: usize,
}

impl OwnedHeap {
    /// The region that blocks are carved from.
    pub closed spec fn region(self) -> Region {
        self.region
    }

    /// The cursor: zero while unset, else the address up to which the region
    /// is given away.
    pub closed spec fn cursor(self) -> usize {
        self.top
    }

    #[verifier::type_invariant]
    pub open spec fn wf(self) -> bool {
        &&& self.region().wf()
        &&& cursor_ok(self.cursor(), self.region())
    }

    /// An allocator over `region` that has handed out nothing.
    pub fn new(region: Region) -> (heap: OwnedHeap)
        ensures
            heap.region() == region,
            heap.cursor() == 0,
    {
        proof {
            use_type_invariant(&region);
        }
        OwnedHeap { region, top: 0 }
    }

    /// Sets the cursor to the region's base if it was not set, and returns
    /// the cursor.
    pub fn heap_top(&mut self) -> (top: usize)
        ensures
            final(self).region() == old(self).region(),
            final(self).cursor() == published(old(self).cursor(), old(self).region()),
            top == final(self).cursor(),
            top != 0,
    {
        proof {
            use_type_invariant(&*self);
        }
        if self.top == 0 {
            self.top = self.region.base_address();
        }
        self.top
    }

    /// Serves one request: the block starts at the cursor rounded up to the
    /// alignment, and the cursor moves to the block's end. A request that is
    /// refused moves nothing.
    pub fn alloc_inner(&mut self, layout: Layout) -> (served: Result<Chunk, AllocError>)
        ensures
            final(self).region() == old(self).region(),
            (final(self).cursor(), served) == step(old(self).cursor(), old(self).region(), layout),
            served matches Ok(chunk) ==> {
                &&& chunk.layout == layout
                &&& chunk.addr % layout.align == 0
                &&& chunk.inside(old(self).region())
                &&& published(old(self).cursor(), old(self).region()) <= chunk.addr
                &&& final(self).cursor() == chunk.end()
            },
            served is Err ==> published(final(self).cursor(), old(self).region())
                == published(old(self).cursor(), old(self).region()),
            served is Err && old(self).cursor() != 0 ==> final(self).cursor() == old(self).cursor(),
    {
        let top: usize = self.heap_top();
        proof {
            use_type_invariant(&*self);
            lemma_placement(top, layout, self.region);
        }
        match place(top, layout, &self.region) {
            Err(e) => Err(e),
            Ok(p) => {
                self.top = p.end;
                Ok(Chunk::new(p.addr, layout, StaticHandle))
            },
        }
    }

    /// Serves one request as [`alloc_inner`](Self::alloc_inner) does.
    ///
    /// The region is resident as a whole, so `_commit` changes nothing.
    pub fn allocate(&mut self, layout: Layout, _commit: bool) -> (served: Result<
        Chunk,
        AllocError,
    >)
        ensures
            final(self).region() == old(self).region(),
            (final(self).cursor(), served) == step(old(self).cursor(), old(self).region(), layout),
            served matches Ok(chunk) ==> {
                &&& chunk.layout == layout
                &&& chunk.addr % layout.align == 0
                &&& chunk.inside(old(self).region())
                &&& published(old(self).cursor(), old(self).region()) <= chunk.addr
                &&& final(self).cursor() == chunk.end()
            },
            served is Err ==> published(final(self).cursor(), old(self).region())
                == published(old(self).cursor(), old(self).region()),
            served is Err && old(self).cursor() != 0 ==> final(self).cursor() == old(self).cursor(),
    {
        self.alloc_inner(layout)
    }

    /// Takes a chunk back, which does nothing: the region is never given
    /// up, and the chunk is left as it was.
    pub fn deallocate(chunk: &mut Chunk)
        ensures
            *final(chunk) == *old(chunk),
    {
    }
}

} // verus!
