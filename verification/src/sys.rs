//! Where the backing region lies.
//!
//! The region is found in one of two ways, chosen when the allocator is set
//! up: relative to the image of a loaded enclave ([`sgx`]), or as a fixed
//! buffer inside the process ([`unix`]). Either way the answer is a function
//! of the locator's value alone, so asking twice gives the same answer.

pub mod sgx;
pub mod unix;

use crate::sys::unix::HEAP_SIZE;
use vstd::prelude::*;

verus! {

/// `a + b` in the address space, which wraps at its end.
pub open spec fn wrapping_sum(a: usize, b: usize) -> usize {
    if a + b > usize::MAX {
        (a + b - usize::MAX - 1) as usize
    } else {
        (a + b) as usize
    }
}

/// The span `[base, base + size)` that all blocks are carved from.
///
/// The base is not the address zero, which stands for a cursor that was not
/// set yet, and the span ends inside the address space.
#[derive(Clone, Copy, Debug, PartialEq, Eq, Hash)]
pub struct Region {
    base: usize,
    size: usize,
}

impl Region {
    /// The address of the region's first byte.
    pub closed spec fn start(self) -> usize {
        self.base
    }

    /// The number of bytes in the region.
    pub closed spec fn extent(self) -> usize {
        self.size
    }

    /// The first address after the region.
    pub open spec fn limit(self) -> usize {
        (self.start() + self.extent()) as usize
    }

    #[verifier::type_invariant]
    pub open spec fn wf(self) -> bool {
        self.start() != 0 && self.start() + self.extent() <= usize::MAX
    }

    /// The region of `size` bytes at `base`, unless `base` is zero or the
    /// region would run past the end of the address space.
    pub fn new(base: usize, size: usize) -> (region: Option<Region>)
        ensures
            region is Some <==> base != 0 && base + size <= usize::MAX,
            region matches Some(r) ==> r.wf() && r.start() == base && r.extent() == size,
    {
        if base == 0 || size > usize::MAX - base {
            None
        } else {
            Some(Region { base, size })
        }
    }

    pub fn base_address(&self) -> (base: usize)
        ensures
            base == self.start(),
            base != 0,
    {
        proof {
            use_type_invariant(self);
        }
        self.base
    }

    pub fn size(&self) -> (size: usize)
        ensures
            size == self.extent(),
    {
        self.size
    }

    /// The first address after the region.
    pub fn end_address(&self) -> (end: usize)
        ensures
            end == self.limit(),
    {
        proof {
            use_type_invariant(self);
        }
        self.base + self.size
    }
}

/// The two ways of finding the region.
#[derive(Clone, Copy, Debug, PartialEq, Eq, Hash)]
pub enum Locator {
    /// Inside an enclave: offsets from the image's load address.
    Sgx(sgx::Enclave),
    /// Anywhere else: a buffer of fixed size inside the process.
    Unix(unix::Heap<HEAP_SIZE>),
}

impl Locator {
    /// The base address that this locator resolves to.
    pub open spec fn base(self) -> usize {
        match self {
            Locator::Sgx(enclave) => enclave.heap_base(),
            Locator::Unix(heap) => heap.base(),
        }
    }

    /// The size that this locator resolves to.
    pub open spec fn extent(self) -> usize {
        match self {
            Locator::Sgx(enclave) => enclave.heap_extent(),
            Locator::Unix(_) => HEAP_SIZE,
        }
    }

    /// The address of the region's first byte. The answer depends on the
    /// locator alone: every call gives the same address.
    pub fn base_address(&self) -> (base: usize)
        ensures
            base == self.base(),
    {
        match self {
            Locator::Sgx(enclave) => sgx::heap_base_ptr(enclave),
            Locator::Unix(heap) => unix::heap_base_ptr(heap),
        }
    }

    /// The number of bytes in the region. The answer depends on the locator
    /// alone: every call gives the same number.
    pub fn size(&self) -> (size: usize)
        ensures
            size == self.extent(),
    {
        match self {
            Locator::Sgx(enclave) => sgx::heap_size(enclave),
            Locator::Unix(heap) => unix::heap_size(heap),
        }
    }

    /// The region that the locator describes, unless its base is zero or it
    /// runs past the end of the address space.
    pub fn region(&self) -> (region: Option<Region>)
        ensures
            region is Some <==> self.base() != 0 && self.base() + self.extent() <= usize::MAX,
            region matches Some(r) ==> r.wf() && r.start() == self.base() && r.extent()
                == self.extent(),
    {
        Region::new(heap_base_ptr(self), heap_size(self))
    }
}

/// The address of the heap's first byte.
pub fn heap_base_ptr(locator: &Locator) -> (base: usize)
    ensures
        base == locator.base(),
{
    locator.base_address()
}

/// The number of bytes in the heap.
pub fn heap_size(locator: &Locator) -> (size: usize)
    ensures
        size == locator.extent(),
{
    locator.size()
}

/// The first address after the heap, wrapping at the end of the address
/// space.
pub fn heap_end_ptr(locator: &Locator) -> (end: usize)
    ensures
        end == wrapping_sum(locator.base(), locator.extent()),
{
    heap_base_ptr(locator).wrapping_add(heap_size(locator))
}

} // verus!
