//! What holds of every run of the allocator.
//!
//! A run of the shared allocator is the sequence of the operations that
//! reached its cursor, each of them atomic, in the order in which they
//! reached it: however the threads were scheduled, there is such a sequence.
//! A run of the single-owner allocator is the sequence of the requests it
//! served.

use crate::base::{AllocError, Chunk};
use crate::cursor::{
    cursor_after, cursor_after_all, cursor_ok, exchange, granted, lemma_placement, placement,
    published, served, step, Exchange,
};
use crate::layout::{round_up, Layout};
use crate::sys::Region;
use vstd::prelude::*;

verus! {

/// One operation on a shared cursor keeps the cursor inside the region and
/// never moves it down; a chunk it hands out starts at or after the cursor,
/// ends where the cursor then stands, is aligned as requested and lies
/// inside the region.
pub proof fn lemma_exchange(cursor: usize, region: Region, op: Exchange)
    requires
        region.wf(),
        cursor_ok(cursor, region),
    ensures
        cursor_ok(exchange(cursor, region, op).0, region),
        published(cursor, region) <= published(exchange(cursor, region, op).0, region),
        exchange(cursor, region, op).1 matches Some(chunk) ==> {
            &&& op matches Exchange::Bump { top, layout }
            &&& top == cursor
            &&& chunk.layout == layout
            &&& cursor != 0
            &&& cursor <= chunk.addr
            &&& chunk.end() == exchange(cursor, region, op).0
            &&& chunk.addr % chunk.layout.align == 0
            &&& chunk.inside(region)
        },
{
    match op {
        Exchange::Publish => {},
        Exchange::Bump { top, layout } => {
            lemma_placement(top, layout, region);
        },
    }
}

/// One request served by a single owner keeps the cursor inside the region
/// and never moves it down; a chunk it hands out starts at or after the
/// cursor, ends where the cursor then stands, is aligned as requested and
/// lies inside the region.
pub proof fn lemma_step(cursor: usize, region: Region, layout: Layout)
    requires
        region.wf(),
        cursor_ok(cursor, region),
    ensures
        cursor_ok(step(cursor, region, layout).0, region),
        step(cursor, region, layout).0 != 0,
        published(cursor, region) <= step(cursor, region, layout).0,
        step(cursor, region, layout).1 matches Ok(chunk) ==> {
            &&& chunk.layout == layout
            &&& published(cursor, region) <= chunk.addr
            &&& chunk.end() == step(cursor, region, layout).0
            &&& chunk.addr % layout.align == 0
            &&& chunk.inside(region)
        },
        step(cursor, region, layout).1 is Err ==> step(cursor, region, layout).0 == published(
            cursor,
            region,
        ),
{
    lemma_placement(published(cursor, region), layout, region);
}

/// A single owner does what a thread does that is never overtaken: it sets
/// the cursor, and places its block at the value that the cursor then holds.
pub proof fn lemma_step_is_publish_then_bump(cursor: usize, region: Region, layout: Layout)
    ensures
        ({
            let set = exchange(cursor, region, Exchange::Publish).0;
            let (moved, won) = exchange(set, region, Exchange::Bump { top: set, layout });
            &&& step(cursor, region, layout).0 == moved
            &&& step(cursor, region, layout).1 is Ok <==> won is Some
            &&& won matches Some(chunk) ==> step(cursor, region, layout).1 == Ok::<
                Chunk,
                AllocError,
            >(chunk)
        }),
{
}

/// Along a run of the shared allocator the cursor stays inside the region
/// and never moves down.
pub proof fn lemma_shared_cursor_rises(
    cursor: usize,
    region: Region,
    ops: Seq<Exchange>,
    i: int,
    j: int,
)
    requires
        region.wf(),
        cursor_ok(cursor, region),
        0 <= i <= j <= ops.len(),
    ensures
        cursor_ok(cursor_after_all(cursor, region, ops.take(i)), region),
        cursor_ok(cursor_after_all(cursor, region, ops.take(j)), region),
        published(cursor_after_all(cursor, region, ops.take(i)), region) <= published(
            cursor_after_all(cursor, region, ops.take(j)),
            region,
        ),
    decreases j,
{
    if j == 0 {
        assert(ops.take(0).len() == 0);
    } else {
        assert(ops.take(j).drop_last() =~= ops.take(j - 1));
        assert(ops.take(j).last() == ops[j - 1]);
        let before = cursor_after_all(cursor, region, ops.take(j - 1));
        if i == j {
            lemma_shared_cursor_rises(cursor, region, ops, j - 1, j - 1);
        } else {
            lemma_shared_cursor_rises(cursor, region, ops, i, j - 1);
        }
        lemma_exchange(before, region, ops[j - 1]);
    }
}

/// Along a run of the single-owner allocator the cursor stays inside the
/// region and never moves down.
pub proof fn lemma_cursor_rises(cursor: usize, region: Region, requests: Seq<Layout>, i: int, j: int)
    requires
        region.wf(),
        cursor_ok(cursor, region),
        0 <= i <= j <= requests.len(),
    ensures
        cursor_ok(cursor_after(cursor, region, requests.take(i)), region),
        cursor_ok(cursor_after(cursor, region, requests.take(j)), region),
        published(cursor_after(cursor, region, requests.take(i)), region) <= published(
            cursor_after(cursor, region, requests.take(j)),
            region,
        ),
    decreases j,
{
    if j == 0 {
        assert(requests.take(0).len() == 0);
    } else {
        assert(requests.take(j).drop_last() =~= requests.take(j - 1));
        assert(requests.take(j).last() == requests[j - 1]);
        let before = cursor_after(cursor, region, requests.take(j - 1));
        if i == j {
            lemma_cursor_rises(cursor, region, requests, j - 1, j - 1);
        } else {
            lemma_cursor_rises(cursor, region, requests, i, j - 1);
        }
        lemma_step(before, region, requests[j - 1]);
    }
}

/// No overlap: in whatever order the operations of the threads reach the
/// cursor, two chunks that are handed out share no byte, and the one handed
/// out later starts at or after the end of the earlier one.
pub proof fn law_no_overlap(cursor: usize, region: Region, ops: Seq<Exchange>, i: int, j: int)
    requires
        region.wf(),
        cursor_ok(cursor, region),
        0 <= i < j < ops.len(),
        granted(cursor, region, ops, i) is Some,
        granted(cursor, region, ops, j) is Some,
    ensures
        granted(cursor, region, ops, i).unwrap().end() <= granted(
            cursor,
            region,
            ops,
            j,
        ).unwrap().addr,
        granted(cursor, region, ops, i).unwrap().bytes().disjoint(
            granted(cursor, region, ops, j).unwrap().bytes(),
        ),
{
    let at_i = cursor_after_all(cursor, region, ops.take(i));
    let at_j = cursor_after_all(cursor, region, ops.take(j));
    lemma_shared_cursor_rises(cursor, region, ops, i, i + 1);
    lemma_shared_cursor_rises(cursor, region, ops, i + 1, j);
    lemma_exchange(at_i, region, ops[i]);
    lemma_exchange(at_j, region, ops[j]);
    assert(ops.take(i + 1).drop_last() =~= ops.take(i));
    assert(ops.take(i + 1).last() == ops[i]);
}

/// Alignment and bounds: in whatever order the operations of the threads
/// reach the cursor, every chunk that is handed out has the layout that was
/// asked for, starts at a multiple of its alignment and lies inside the
/// region.
pub proof fn law_aligned_in_bounds(cursor: usize, region: Region, ops: Seq<Exchange>, i: int)
    requires
        region.wf(),
        cursor_ok(cursor, region),
        0 <= i < ops.len(),
        granted(cursor, region, ops, i) is Some,
    ensures
        ops[i] matches Exchange::Bump { top, layout } && granted(
            cursor,
            region,
            ops,
            i,
        ).unwrap().layout == layout,
        granted(cursor, region, ops, i).unwrap().addr % granted(
            cursor,
            region,
            ops,
            i,
        ).unwrap().layout.align == 0,
        granted(cursor, region, ops, i).unwrap().inside(region),
{
    lemma_shared_cursor_rises(cursor, region, ops, i, i);
    lemma_exchange(cursor_after_all(cursor, region, ops.take(i)), region, ops[i]);
}

/// Alignment and bounds, for a single owner: every chunk that is handed out
/// has the layout that was asked for, starts at a multiple of its alignment
/// and lies inside the region.
pub proof fn law_served_aligned_in_bounds(
    cursor: usize,
    region: Region,
    requests: Seq<Layout>,
    i: int,
)
    requires
        region.wf(),
        cursor_ok(cursor, region),
        0 <= i < requests.len(),
        served(cursor, region, requests, i) is Ok,
    ensures
        served(cursor, region, requests, i).unwrap().layout == requests[i],
        served(cursor, region, requests, i).unwrap().addr % requests[i].align == 0,
        served(cursor, region, requests, i).unwrap().inside(region),
{
    lemma_cursor_rises(cursor, region, requests, i, i);
    lemma_step(cursor_after(cursor, region, requests.take(i)), region, requests[i]);
}

/// Which requests a single owner serves, and which error each of the others
/// gets: `InvalidLayout` where the alignment is no power of two; else
/// `Overflow` where rounding the cursor up leaves the address space; else
/// `OutOfMemory` where the block would end after the region; else the block
/// at the cursor rounded up.
pub proof fn law_when_served(cursor: usize, region: Region, layout: Layout)
    requires
        region.wf(),
        cursor_ok(cursor, region),
    ensures
        ({
            let top = published(cursor, region);
            let aligned = round_up(top as int, layout.align as int);
            let got = step(cursor, region, layout).1;
            &&& got == Err::<Chunk, AllocError>(AllocError::InvalidLayout) <==> !layout.valid()
            &&& got == Err::<Chunk, AllocError>(AllocError::Overflow) <==> layout.valid() && top
                + layout.align - 1 > usize::MAX
            &&& got == Err::<Chunk, AllocError>(AllocError::OutOfMemory) <==> layout.valid() && top
                + layout.align - 1 <= usize::MAX && aligned + layout.size > region.limit()
            &&& got is Ok <==> layout.valid() && top + layout.align - 1 <= usize::MAX && aligned
                + layout.size <= region.limit()
            &&& got matches Ok(chunk) ==> chunk.addr == aligned && chunk.layout == layout
        }),
{
    lemma_placement(published(cursor, region), layout, region);
}

/// Exhaustion, for a single owner: a request whose block would end after
/// the region fails with `OutOfMemory`, and the cursor stays where it was.
pub proof fn law_exhaustion(cursor: usize, region: Region, layout: Layout)
    requires
        region.wf(),
        cursor_ok(cursor, region),
        layout.valid(),
        published(cursor, region) + layout.align - 1 <= usize::MAX,
        round_up(published(cursor, region) as int, layout.align as int) + layout.size
            > region.limit(),
    ensures
        step(cursor, region, layout).1 == Err::<Chunk, AllocError>(AllocError::OutOfMemory),
        published(step(cursor, region, layout).0, region) == published(cursor, region),
        cursor != 0 ==> step(cursor, region, layout).0 == cursor,
{
}

/// Exhaustion, for a shared cursor: an operation whose block would end
/// after the region hands out nothing and leaves the cursor as it was.
pub proof fn law_shared_exhaustion(cursor: usize, region: Region, top: usize, layout: Layout)
    requires
        region.wf(),
        round_up(top as int, layout.align as int) + layout.size > region.limit(),
    ensures
        layout.valid() && top + layout.align - 1 <= usize::MAX ==> placement(top, layout, region)
            == Err::<crate::cursor::Placement, AllocError>(AllocError::OutOfMemory),
        exchange(cursor, region, Exchange::Bump { top, layout }) == (cursor, None::<Chunk>),
{
}

/// Monotonicity: of two chunks that a single owner handed out, the later
/// one starts at or after the end of the earlier one; so its address is the
/// greater one wherever the earlier chunk is not empty, and the two share no
/// byte.
pub proof fn law_addresses_increase(
    cursor: usize,
    region: Region,
    requests: Seq<Layout>,
    i: int,
    j: int,
)
    requires
        region.wf(),
        cursor_ok(cursor, region),
        0 <= i < j < requests.len(),
        served(cursor, region, requests, i) is Ok,
        served(cursor, region, requests, j) is Ok,
    ensures
        served(cursor, region, requests, i).unwrap().end() <= served(
            cursor,
            region,
            requests,
            j,
        ).unwrap().addr,
        requests[i].size > 0 ==> served(cursor, region, requests, i).unwrap().addr < served(
            cursor,
            region,
            requests,
            j,
        ).unwrap().addr,
        served(cursor, region, requests, i).unwrap().bytes().disjoint(
            served(cursor, region, requests, j).unwrap().bytes(),
        ),
{
    let at_i = cursor_after(cursor, region, requests.take(i));
    let at_j = cursor_after(cursor, region, requests.take(j));
    lemma_cursor_rises(cursor, region, requests, i, i + 1);
    lemma_cursor_rises(cursor, region, requests, i + 1, j);
    lemma_step(at_i, region, requests[i]);
    lemma_step(at_j, region, requests[j]);
    assert(requests.take(i + 1).drop_last() =~= requests.take(i));
    assert(requests.take(i + 1).last() == requests[i]);
}

} // verus!
