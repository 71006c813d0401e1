//! The allocator capability that buffers grow through, and the allocators
//! that come with the library.

use vstd::prelude::*;

use crate::mem::{allocate, free, MemoryAmount, PlatformMemory, ReservedMemory};

verus! {

/// An allocator could not provide the memory that was asked of it.
#[derive(Clone, Copy, PartialEq, Eq, Structural, Debug)]
pub struct AllocError;

/// Something that hands out spans of memory. Spans handed out are committed:
/// they may be read and written until they are given back.
///
/// Any allocator with these operations can back a
/// [`SizedVec`](crate::sized_vec::SizedVec); whether a request succeeds is
/// the allocator's own decision.
pub trait Allocator {
    /// Hands out a span of `amount` bytes.
    fn allocate(&mut self, amount: MemoryAmount) -> Result<ReservedMemory, AllocError>;

    /// Hands out a span of `amount` bytes that all read as zero.
    fn allocate_zeroed(&mut self, amount: MemoryAmount) -> Result<ReservedMemory, AllocError>;

    /// Replaces `block`, which this allocator handed out, by a span of
    /// `new_amount` bytes, at least as long. The span may start elsewhere.
    fn grow(&mut self, block: ReservedMemory, new_amount: MemoryAmount) -> Result<
        ReservedMemory,
        AllocError,
    >;

    /// Replaces `block`, which this allocator handed out, by a span of
    /// `new_amount` bytes, at most as long. The span may start elsewhere.
    fn shrink(&mut self, block: ReservedMemory, new_amount: MemoryAmount) -> Result<
        ReservedMemory,
        AllocError,
    >;

    /// Gives `block`, which this allocator handed out, back.
    fn deallocate(&mut self, block: ReservedMemory);
}

/// Allocates straight from the operating system's virtual memory primitives,
/// one mapping per request, with no pooling.
///
/// Fresh mappings already read as zero on the supported systems (anonymous
/// mappings on Unix, `VirtualAlloc` on Windows), so zeroed allocation costs
/// nothing extra. Every request is a system call: this suits bootstrapping
/// and fallback use, not hot paths.
pub struct OsAllocator<P: PlatformMemory> {
    pub platform: P,
}

impl<P: PlatformMemory> OsAllocator<P> {
    /// Hands out a fresh mapping of exactly `amount` bytes.
    pub fn allocate(&mut self, amount: MemoryAmount) -> (r: Result<ReservedMemory, AllocError>)
        ensures
            r matches Ok(block) ==> block.wf() && block.amount == amount,
    {
        match allocate(&mut self.platform, amount) {
            Ok(block) => Ok(block),
            Err(()) => Err(AllocError),
        }
    }

    /// Releases a mapping that [`OsAllocator::allocate`] handed out. A span
    /// that is no region (null, or running past the end of the address
    /// space) cannot have come from it and is left alone.
    pub fn deallocate(&mut self, block: ReservedMemory) {
        if block.is_region() {
            free(&mut self.platform, block)
        }
    }

    /// Maps a new span of `new_amount` bytes and releases `block`. The
    /// contents of `block` are not carried over.
    pub fn reallocate(&mut self, block: ReservedMemory, new_amount: MemoryAmount) -> (r: Result<
        ReservedMemory,
        AllocError,
    >)
        ensures
            r matches Ok(fresh) ==> fresh.wf() && fresh.amount == new_amount,
    {
        let fresh = self.allocate(new_amount)?;
        self.deallocate(block);
        Ok(fresh)
    }
}

impl<P: PlatformMemory> Allocator for OsAllocator<P> {
    fn allocate(&mut self, amount: MemoryAmount) -> Result<ReservedMemory, AllocError> {
        OsAllocator::allocate(self, amount)
    }

    fn allocate_zeroed(&mut self, amount: MemoryAmount) -> Result<ReservedMemory, AllocError> {
        OsAllocator::allocate(self, amount)
    }

    fn grow(&mut self, block: ReservedMemory, new_amount: MemoryAmount) -> Result<
        ReservedMemory,
        AllocError,
    > {
        self.reallocate(block, new_amount)
    }

    fn shrink(&mut self, block: ReservedMemory, new_amount: MemoryAmount) -> Result<
        ReservedMemory,
        AllocError,
    > {
        self.reallocate(block, new_amount)
    }

    fn deallocate(&mut self, block: ReservedMemory) {
        OsAllocator::deallocate(self, block)
    }
}

/// The program's heap. The items of a buffer always live in storage that the
/// buffer owns on the heap, so this allocator grants every request; the spans
/// it reports carry the requested length and no address of their own (zero).
#[derive(Clone, Copy, PartialEq, Eq, Structural, Debug, Default)]
pub struct GlobalAllocator;

impl GlobalAllocator {
    /// Grants a span of `amount` bytes.
    pub fn grant(&self, amount: MemoryAmount) -> (r: ReservedMemory)
        ensures
            r.base_address == 0,
            r.amount == amount,
    {
        ReservedMemory { base_address: 0, amount }
    }
}

impl Allocator for GlobalAllocator {
    fn allocate(&mut self, amount: MemoryAmount) -> Result<ReservedMemory, AllocError> {
        Ok(self.grant(amount))
    }

    fn allocate_zeroed(&mut self, amount: MemoryAmount) -> Result<ReservedMemory, AllocError> {
        Ok(self.grant(amount))
    }

    fn grow(&mut self, block: ReservedMemory, new_amount: MemoryAmount) -> Result<
        ReservedMemory,
        AllocError,
    > {
        Ok(self.grant(new_amount))
    }

    fn shrink(&mut self, block: ReservedMemory, new_amount: MemoryAmount) -> Result<
        ReservedMemory,
        AllocError,
    > {
        Ok(self.grant(new_amount))
    }

    fn deallocate(&mut self, block: ReservedMemory) {
    }
}

} // verus!
