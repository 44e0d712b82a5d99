use sgx_heap::base::{AllocError, Chunk, StaticHandle, IS_ZEROED};
use sgx_heap::owned::OwnedHeap;
use sgx_heap::layout::Layout;
use sgx_heap::sys::Region;

const BASE: usize = 0x10_0000;

fn fresh(size: usize) -> OwnedHeap {
    OwnedHeap::new(Region::new(BASE, size).unwrap())
}

#[test]
fn two_blocks_then_exhaustion() {
    let mut heap = fresh(4096);
    let first = heap.allocate(Layout::new(64, 64), false).unwrap();
    assert_eq!(first.pointer(), BASE);
    let second = heap.allocate(Layout::new(100, 16), false).unwrap();
    assert_eq!(second.pointer(), BASE + 64);
    assert_eq!(heap.heap_top(), BASE + 164);
    assert_eq!(heap.allocate(Layout::new(5000, 8), false), Err(AllocError::OutOfMemory));
    assert_eq!(heap.heap_top(), BASE + 164);
}

#[test]
fn next_block_starts_at_the_next_multiple_of_its_alignment() {
    let mut heap = fresh(4096);
    heap.allocate(Layout::new(64, 64), false).unwrap();
    heap.allocate(Layout::new(100, 16), false).unwrap();
    let third = heap.allocate(Layout::new(1, 16), false).unwrap();
    assert_eq!(third.pointer(), BASE + 176);
    assert_eq!(heap.heap_top(), BASE + 177);
}

#[test]
fn first_request_sets_the_cursor_to_the_base() {
    let mut heap = fresh(4096);
    assert_eq!(heap.heap_top(), BASE);
    assert_eq!(heap.heap_top(), BASE);
}

#[test]
fn chunk_carries_the_layout_and_the_static_handle() {
    let mut heap = fresh(4096);
    let chunk = heap.allocate(Layout::new(24, 8), true).unwrap();
    assert_eq!(chunk, Chunk::new(BASE, Layout::new(24, 8), StaticHandle));
    assert_eq!(chunk.layout(), Layout::new(24, 8));
    assert_eq!(chunk.handle, StaticHandle);
}

#[test]
fn commit_hint_changes_nothing() {
    let mut with_hint = fresh(4096);
    let mut without = fresh(4096);
    for size in [1usize, 7, 64, 100] {
        let a = with_hint.allocate(Layout::new(size, 8), true);
        let b = without.allocate(Layout::new(size, 8), false);
        assert_eq!(a, b);
    }
    assert_eq!(with_hint.heap_top(), without.heap_top());
}

#[test]
fn addresses_are_multiples_of_the_alignment() {
    let mut heap = fresh(1 << 16);
    let mut shift: u32 = 0;
    while shift < 12 {
        let align: usize = 1 << shift;
        let chunk = heap.allocate(Layout::new(3, align), false).unwrap();
        assert_eq!(chunk.pointer() % align, 0);
        shift += 1;
    }
}

#[test]
fn chunks_lie_inside_the_region() {
    let mut heap = fresh(1000);
    loop {
        match heap.allocate(Layout::new(96, 32), false) {
            Ok(chunk) => {
                assert!(BASE <= chunk.pointer());
                assert!(chunk.pointer() + 96 <= BASE + 1000);
            }
            Err(e) => {
                assert_eq!(e, AllocError::OutOfMemory);
                break;
            }
        }
    }
    assert_eq!(heap.heap_top(), BASE + 960);
}

#[test]
fn block_may_end_exactly_at_the_end_of_the_region() {
    let mut heap = fresh(128);
    let chunk = heap.allocate(Layout::new(128, 1), false).unwrap();
    assert_eq!(chunk.pointer(), BASE);
    assert_eq!(heap.heap_top(), BASE + 128);
    assert_eq!(heap.allocate(Layout::new(1, 1), false), Err(AllocError::OutOfMemory));
    assert_eq!(heap.allocate(Layout::new(0, 1), false).unwrap().pointer(), BASE + 128);
}

#[test]
fn one_byte_too_many_is_out_of_memory() {
    let mut heap = fresh(128);
    assert_eq!(heap.allocate(Layout::new(129, 1), false), Err(AllocError::OutOfMemory));
    assert_eq!(heap.heap_top(), BASE);
    assert_eq!(heap.allocate(Layout::new(128, 1), false).unwrap().pointer(), BASE);
}

#[test]
fn failed_request_leaves_the_cursor_unchanged() {
    let mut heap = fresh(4096);
    heap.allocate(Layout::new(10, 2), false).unwrap();
    let before = heap.heap_top();
    assert_eq!(heap.allocate(Layout::new(4096, 4096), false), Err(AllocError::OutOfMemory));
    assert_eq!(heap.heap_top(), before);
    assert_eq!(heap.allocate(Layout::new(8, 3), false), Err(AllocError::InvalidLayout));
    assert_eq!(heap.heap_top(), before);
    let next = heap.allocate(Layout::new(2, 2), false).unwrap();
    assert_eq!(next.pointer(), before);
}

#[test]
fn padding_that_does_not_fit_is_out_of_memory() {
    let mut heap = OwnedHeap::new(Region::new(BASE + 8, 64).unwrap());
    assert_eq!(heap.allocate(Layout::new(9, 64), false), Err(AllocError::OutOfMemory));
    assert_eq!(heap.heap_top(), BASE + 8);
    assert_eq!(heap.allocate(Layout::new(8, 64), false).unwrap().pointer(), BASE + 64);
    assert_eq!(heap.heap_top(), BASE + 72);
}

#[test]
fn alignment_that_is_no_power_of_two_is_invalid() {
    let mut heap = fresh(4096);
    for align in [0usize, 3, 6, 12, 100, usize::MAX] {
        assert_eq!(heap.allocate(Layout::new(8, align), false), Err(AllocError::InvalidLayout));
    }
    assert_eq!(heap.allocate(Layout::new(8, 1), false).unwrap().pointer(), BASE);
}

#[test]
fn rounding_past_the_address_space_is_overflow() {
    let base: usize = usize::MAX - 4095;
    let mut heap = OwnedHeap::new(Region::new(base, 4095).unwrap());
    heap.allocate(Layout::new(1, 1), false).unwrap();
    assert_eq!(heap.allocate(Layout::new(1, 8192), false), Err(AllocError::Overflow));
    assert_eq!(heap.heap_top(), base + 1);
    assert_eq!(heap.allocate(Layout::new(1, 2), false).unwrap().pointer(), base + 2);
}

#[test]
fn size_past_the_address_space_is_out_of_memory() {
    let mut heap = fresh(4096);
    assert_eq!(heap.allocate(Layout::new(usize::MAX, 1), false), Err(AllocError::OutOfMemory));
    assert_eq!(heap.allocate(Layout::new(usize::MAX - BASE, 1), false), Err(AllocError::OutOfMemory));
    assert_eq!(heap.heap_top(), BASE);
}

#[test]
fn addresses_rise_strictly() {
    let mut heap = fresh(1 << 16);
    let mut last: Option<usize> = None;
    for (size, align) in [(1usize, 1usize), (3, 2), (64, 64), (1, 1), (100, 16), (7, 8), (4096, 4096)] {
        let chunk = heap.allocate(Layout::new(size, align), false).unwrap();
        if let Some(previous) = last {
            assert!(previous < chunk.pointer());
        }
        last = Some(chunk.pointer());
    }
}

#[test]
fn empty_blocks_may_share_an_address() {
    let mut heap = fresh(64);
    let a = heap.allocate(Layout::new(0, 1), false).unwrap();
    let b = heap.allocate(Layout::new(0, 1), false).unwrap();
    assert_eq!(a.pointer(), BASE);
    assert_eq!(b.pointer(), BASE);
    assert_eq!(heap.heap_top(), BASE);
}

#[test]
fn chunks_do_not_overlap() {
    let mut heap = fresh(1 << 14);
    let mut ranges: Vec<(usize, usize)> = Vec::new();
    let requests = [(5usize, 1usize), (16, 16), (0, 8), (33, 4), (128, 128), (1, 1), (900, 64), (2, 2)];
    for (size, align) in requests {
        let chunk = heap.allocate(Layout::new(size, align), false).unwrap();
        ranges.push((chunk.pointer(), chunk.pointer() + size));
    }
    for i in 0..ranges.len() {
        for j in (i + 1)..ranges.len() {
            assert!(ranges[i].1 <= ranges[j].0);
        }
    }
}

#[test]
fn deallocate_changes_neither_chunk_nor_allocator() {
    let mut heap = fresh(4096);
    let mut chunk = heap.allocate(Layout::new(32, 8), false).unwrap();
    let top = heap.heap_top();
    OwnedHeap::deallocate(&mut chunk);
    assert_eq!(chunk, Chunk::new(BASE, Layout::new(32, 8), StaticHandle));
    assert_eq!(heap.heap_top(), top);
    let next = heap.allocate(Layout::new(32, 8), false).unwrap();
    assert_eq!(next.pointer(), BASE + 32);
}

#[test]
fn blocks_are_not_zeroed() {
    assert!(!IS_ZEROED);
}
