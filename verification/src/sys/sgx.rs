//! The heap of a loaded enclave.
//!
//! An enclave is loaded wherever its supervisor chooses, so nothing in it is
//! found by an absolute address: the heap is given by two numbers fixed when
//! the enclave was linked, its offset from the start of the image and its
//! size, and by the address the image was loaded at.

use crate::sys::wrapping_sum;
use vstd::prelude::*;

verus! {

/// A loaded enclave image and the heap that was linked into it.
#[derive(Clone, Copy, Debug, PartialEq, Eq, Hash)]
pub struct Enclave {
    image_base: usize,
    heap_base: usize,
    heap_size: usize,
}

impl Enclave {
    /// The address the image was loaded at.
    pub closed spec fn image(self) -> usize {
        self.image_base
    }

    /// The heap's offset from the start of the image.
    pub closed spec fn heap_offset(self) -> usize {
        self.heap_base
    }

    /// The heap's size.
    pub closed spec fn heap_extent(self) -> usize {
        self.heap_size
    }

    /// The heap's address.
    pub open spec fn heap_base(self) -> usize {
        wrapping_sum(self.image(), self.heap_offset())
    }

    /// An image loaded at `image_base`, whose heap of `heap_size` bytes
    /// starts `heap_base` bytes into it.
    pub fn new(image_base: usize, heap_base: usize, heap_size: usize) -> (enclave: Enclave)
        ensures
            enclave.image() == image_base,
            enclave.heap_offset() == heap_base,
            enclave.heap_extent() == heap_size,
    {
        Enclave { image_base, heap_base, heap_size }
    }

    /// The address that lies `offset` bytes into the image.
    pub fn rel_ptr_mut(&self, offset: usize) -> (addr: usize)
        ensures
            addr == wrapping_sum(self.image(), offset),
    {
        self.image_base.wrapping_add(offset)
    }
}

/// The load address of a process that is not an enclave: none, so offsets
/// into its image are addresses.
pub fn image_base() -> (base: usize)
    ensures
        base == 0,
{
    0
}

/// The base address of the enclave's heap.
pub fn heap_base_ptr(enclave: &Enclave) -> (base: usize)
    ensures
        base == enclave.heap_base(),
{
    enclave.rel_ptr_mut(enclave.heap_base)
}

/// The size of the enclave's heap.
pub fn heap_size(enclave: &Enclave) -> (size: usize)
    ensures
        size == enclave.heap_extent(),
{
    enclave.heap_size
}

} // verus!
