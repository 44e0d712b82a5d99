//! A bump allocator over one fixed region of memory, for processes that
//! have no heap of their own, and the few pieces that connect it to a
//! general-purpose allocator which draws its memory from it.
//!
//! Addresses are plain `usize` values throughout: the crate decides where a
//! block lies and never touches the memory itself.
//!
//! - [`sys`] finds the region.
//! - [`layout`] holds the arithmetic of alignment.
//! - [`cursor`] says where a block is placed and how the cursor moves.
//! - [`heap`] is the allocator that threads share, [`owned`] the same
//!   allocator in the hands of a single owner.
//! - [`base`] holds what the allocator on top sees of a block.
//! - [`thread`] and [`custom`] send the calls of a process to the heap of
//!   the calling thread.
//! - [`laws`] states what holds of every run.

pub mod base;
pub mod cursor;
pub mod custom;
pub mod heap;
pub mod laws;
pub mod layout;
pub mod owned;
pub mod sys;
pub mod thread;
