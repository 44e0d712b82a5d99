//! A heap of fixed size inside the process.

use vstd::prelude::*;

verus! {

/// The size of the process's heap: 4 MiB.
pub const HEAP_SIZE: usize = 0x40_0000;

/// The size of a page, to which the heap is aligned.
pub const PAGE_SIZE: usize = 4096;

/// A buffer of `HEAP_SIZE` bytes that starts on a page boundary and ends
/// inside the address space.
#[derive(Clone, Copy, Debug, PartialEq, Eq, Hash)]
pub struct Heap<const HEAP_SIZE: usize> {
    addr: usize,
}

impl<const HEAP_SIZE: usize> Heap<HEAP_SIZE> {
    /// The address of the buffer's first byte.
    pub closed spec fn base(self) -> usize {
        self.addr
    }

    #[verifier::type_invariant]
    pub open spec fn wf(self) -> bool {
        &&& self.base() != 0
        &&& self.base() % PAGE_SIZE == 0
        &&& self.base() + HEAP_SIZE <= usize::MAX
    }

    /// The buffer at `addr`, unless `addr` is zero or off a page boundary,
    /// or the buffer would run past the end of the address space.
    pub fn new(addr: usize) -> (heap: Option<Self>)
        ensures
            heap is Some <==> addr != 0 && addr % PAGE_SIZE == 0 && addr + HEAP_SIZE
                <= usize::MAX,
            heap matches Some(h) ==> h.wf() && h.base() == addr,
    {
        if addr == 0 || addr % PAGE_SIZE != 0 || HEAP_SIZE > usize::MAX - addr {
            None
        } else {
            Some(Heap { addr })
        }
    }

    pub fn base_ptr(&self) -> (base: usize)
        ensures
            base == self.base(),
    {
        self.addr
    }

    pub fn size(&self) -> (size: usize)
        ensures
            size == HEAP_SIZE,
    {
        HEAP_SIZE
    }
}

/// The base address of the process's heap.
pub fn heap_base_ptr(heap: &Heap<HEAP_SIZE>) -> (base: usize)
    ensures
        base == heap.base(),
{
    heap.base_ptr()
}

/// The size of the process's heap.
pub fn heap_size(heap: &Heap<HEAP_SIZE>) -> (size: usize)
    ensures
        size == HEAP_SIZE,
{
    heap.size()
}

} // verus!
