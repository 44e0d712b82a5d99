//! Where the next block goes, and how the cursor moves.
//!
//! The allocator keeps one number, the cursor: the address up to which the
//! region is given away. Zero stands for a cursor that was not set yet. The
//! cursor is set to the region's base once and after that only moves up, by
//! one exchange per block: from the value it had to the end of the new
//! block. Everything the allocators decide is a function of the value they
//! saw in the cursor, and that function is [`placement`].

use crate::base::{AllocError, Chunk, StaticHandle};
use crate::layout::{align_up, lemma_round_up_least, round_up, Layout};
use crate::sys::Region;
use vstd::prelude::*;

verus! {

/// Where a block lies and where the cursor stands after it.
#[derive(Clone, Copy, Debug, PartialEq, Eq, Structural, Hash)]
pub struct Placement {
    pub addr: usize,
    pub end: usize,
}

/// The block of `layout` placed at the cursor value `top` in `region`.
///
/// The block starts at `top` rounded up to the alignment and ends `size`
/// bytes later. It is refused when the alignment is not a power of two, when
/// the rounding leaves the address space, and when the block would end after
/// the region. A `top` before the region is no value of the cursor, and
/// nothing is placed at it.
pub open spec fn placement(top: usize, layout: Layout, region: Region) -> Result<
    Placement,
    AllocError,
> {
    let aligned = round_up(top as int, layout.align as int);
    let end = aligned + layout.size;
    if !layout.valid() {
        Err(AllocError::InvalidLayout)
    } else if top + layout.align - 1 > usize::MAX {
        Err(AllocError::Overflow)
    } else if top < region.start() || end > region.limit() {
        Err(AllocError::OutOfMemory)
    } else {
        Ok(Placement { addr: aligned as usize, end: end as usize })
    }
}

/// What a successful placement promises: the block is aligned, starts at or
/// after `top` with less than one alignment of padding, and lies inside the
/// region.
pub proof fn lemma_placement(top: usize, layout: Layout, region: Region)
    ensures
        placement(top, layout, region) matches Ok(p) ==> {
            &&& layout.valid()
            &&& region.start() <= top
            &&& p.addr % layout.align == 0
            &&& top <= p.addr < top + layout.align
            &&& p.end == p.addr + layout.size
            &&& p.end <= region.limit()
        },
{
    if layout.valid() {
        assert(layout.align > 0) by {
            reveal(vstd::arithmetic::power2::is_pow2);
        }
        lemma_round_up_least(top as int, layout.align as int, 0);
    }
}

/// Computes [`placement`].
pub fn place(top: usize, layout: Layout, region: &Region) -> (placed: Result<
    Placement,
    AllocError,
>)
    ensures
        placed == placement(top, layout, *region),
{
    if !layout.is_valid() {
        return Err(AllocError::InvalidLayout);
    }
    let aligned: usize = match align_up(top, layout.align) {
        None => {
            return Err(AllocError::Overflow);
        },
        Some(aligned) => aligned,
    };
    if top < region.base_address() {
        return Err(AllocError::OutOfMemory);
    }
    let end: usize = match aligned.checked_add(layout.size) {
        None => {
            return Err(AllocError::OutOfMemory);
        },
        Some(end) => end,
    };
    if end > region.end_address() {
        return Err(AllocError::OutOfMemory);
    }
    Ok(Placement { addr: aligned, end })
}

/// The chunk that a placement stands for.
pub open spec fn chunk_at(p: Placement, layout: Layout) -> Chunk {
    Chunk { addr: p.addr, layout, handle: StaticHandle }
}

/// What a request for `layout` gets when its block is placed at `top`.
pub open spec fn outcome(top: usize, layout: Layout, region: Region) -> Result<Chunk, AllocError> {
    match placement(top, layout, region) {
        Ok(p) => Ok(chunk_at(p, layout)),
        Err(e) => Err(e),
    }
}

/// The cursor once it is set: the region's base where it was not set yet.
pub open spec fn published(cursor: usize, region: Region) -> usize {
    if cursor == 0 {
        region.start()
    } else {
        cursor
    }
}

/// The value that a thread goes on with after it tried to set the cursor to
/// `base`: `base` where its exchange took place, else the value that the
/// exchange found in the cursor.
pub open spec fn top_after_exchange(base: usize, swapped: Result<usize, usize>) -> usize {
    match swapped {
        Ok(_) => base,
        Err(seen) => seen,
    }
}

/// Computes [`top_after_exchange`].
pub fn top_after(base: usize, swapped: Result<usize, usize>) -> (top: usize)
    ensures
        top == top_after_exchange(base, swapped),
{
    match swapped {
        Ok(_) => base,
        Err(seen) => seen,
    }
}

/// A cursor is unset or lies inside the region, its end included.
pub open spec fn cursor_ok(cursor: usize, region: Region) -> bool {
    cursor == 0 || region.start() <= cursor <= region.limit()
}

/// One request served by a single owner of the cursor: the cursor after it,
/// and what the request got.
///
/// The cursor is set if it was not, and the block is placed at it. A request
/// that is refused leaves the cursor where it was.
pub open spec fn step(cursor: usize, region: Region, layout: Layout) -> (
    usize,
    Result<Chunk, AllocError>,
) {
    let top = published(cursor, region);
    match placement(top, layout, region) {
        Ok(p) => (p.end, outcome(top, layout, region)),
        Err(_) => (top, outcome(top, layout, region)),
    }
}

/// The cursor after a single owner has served `requests` one after another.
pub open spec fn cursor_after(cursor: usize, region: Region, requests: Seq<Layout>) -> usize
    decreases requests.len(),
{
    if requests.len() == 0 {
        cursor
    } else {
        step(cursor_after(cursor, region, requests.drop_last()), region, requests.last()).0
    }
}

/// What the request `requests[i]` got when a single owner served `requests`
/// one after another.
pub open spec fn served(cursor: usize, region: Region, requests: Seq<Layout>, i: int) -> Result<
    Chunk,
    AllocError,
> {
    step(cursor_after(cursor, region, requests.take(i)), region, requests[i]).1
}

/// One atomic operation on a cursor that several threads share.
pub enum Exchange {
    /// Set the cursor to the region's base if it was not set.
    Publish,
    /// Place a block of `layout` at `top`, the value that the thread last
    /// saw in the cursor, and move the cursor to the block's end if it still
    /// holds `top`.
    Bump { top: usize, layout: Layout },
}

/// The cursor after one operation, and the chunk that the operation won.
///
/// A `Bump` wins its block only if the cursor still holds the value that the
/// block was placed at; otherwise it changes nothing, and its thread tries
/// again with the value that the cursor holds now.
pub open spec fn exchange(cursor: usize, region: Region, op: Exchange) -> (usize, Option<Chunk>) {
    match op {
        Exchange::Publish => (published(cursor, region), None),
        Exchange::Bump { top, layout } => match placement(top, layout, region) {
            Ok(p) if cursor == top => (p.end, Some(chunk_at(p, layout))),
            _ => (cursor, None),
        },
    }
}

/// The cursor after the operations `ops`, in the order in which they reached
/// it.
pub open spec fn cursor_after_all(cursor: usize, region: Region, ops: Seq<Exchange>) -> usize
    decreases ops.len(),
{
    if ops.len() == 0 {
        cursor
    } else {
        exchange(cursor_after_all(cursor, region, ops.drop_last()), region, ops.last()).0
    }
}

/// The chunk that the operation `ops[i]` won, if it won one.
pub open spec fn granted(cursor: usize, region: Region, ops: Seq<Exchange>, i: int) -> Option<
    Chunk,
> {
    exchange(cursor_after_all(cursor, region, ops.take(i)), region, ops[i]).1
}

} // verus!
