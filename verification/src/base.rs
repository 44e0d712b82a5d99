//! What the allocator on top of this crate sees of a block: where it lies,
//! how it was requested, and who handed it out.

use crate::layout::Layout;
use crate::sys::Region;
use vstd::prelude::*;

verus! {

/// Blocks handed out by this crate are zeroed by nobody: whoever needs zeroed
/// memory clears it.
pub const IS_ZEROED: bool = false;

/// Why a request was turned down.
#[derive(Clone, Copy, Debug, PartialEq, Eq, Structural, Hash)]
pub enum AllocError {
    /// The region has no room left for the block.
    OutOfMemory,
    /// Rounding the cursor up to the alignment leaves the address space.
    Overflow,
    /// The alignment is not a power of two.
    InvalidLayout,
}

/// The tag on every chunk of the fixed region: such a chunk is never given
/// back to its source.
#[derive(Clone, Copy, Debug, PartialEq, Eq, Structural, Hash)]
pub struct StaticHandle;

/// The right to the bytes `[addr, addr + layout.size)`.
///
/// A chunk is not `Clone`: whoever holds it owns the bytes.
#[derive(Debug, PartialEq, Eq, Structural, Hash)]
pub struct Chunk {
    pub addr: usize,
    pub layout: Layout,
    pub handle: StaticHandle,
}

impl Chunk {
    /// The first address after the chunk.
    pub open spec fn end(self) -> int {
        self.addr + self.layout.size
    }

    /// The addresses of the chunk's bytes.
    pub open spec fn bytes(self) -> Set<int> {
        Set::new(|a: int| self.addr <= a < self.end())
    }

    /// The chunk lies inside `region`.
    pub open spec fn inside(self, region: Region) -> bool {
        region.start() <= self.addr && self.end() <= region.limit()
    }

    pub fn new(addr: usize, layout: Layout, handle: StaticHandle) -> (chunk: Chunk)
        ensures
            chunk == (Chunk { addr, layout, handle }),
    {
        Chunk { addr, layout, handle }
    }

    /// The address of the chunk's first byte.
    pub fn pointer(&self) -> (addr: usize)
        ensures
            addr == self.addr,
    {
        self.addr
    }

    /// The layout the chunk was requested with.
    pub fn layout(&self) -> (layout: Layout)
        ensures
            layout == self.layout,
    {
        self.layout
    }
}

} // verus!
