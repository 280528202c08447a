//! Bump allocation: requests are served one behind the other, and all are
//! given back at once.

use super::{aligned, alignable, round_up, AllocationStats, Allocator};
use crate::runtime::RuntimeError;
use vstd::prelude::*;

verus! {

/// The alignment of a bump allocator's buffer.
pub const BUFFER_ALIGN: usize = 8;

/// The greatest buffer size that can be laid out at [`BUFFER_ALIGN`]:
/// rounded up to it, the size must not pass the greatest `isize`.
pub open spec fn max_buffer_size() -> int {
    isize::MAX - (BUFFER_ALIGN - 1)
}

/// A bump allocator that allocates memory by incrementing an offset
pub struct BumpAllocator {
    size: usize,
    offset: usize,
    stats: AllocationStats,
}

impl BumpAllocator {
    /// The total size in bytes.
    pub closed spec fn spec_size(&self) -> usize {
        self.size
    }

    /// The offset behind the last allocation.
    pub closed spec fn spec_offset(&self) -> usize {
        self.offset
    }

    /// Create a new bump allocator with the given size. A size of zero, or
    /// one that cannot be laid out at [`BUFFER_ALIGN`], is refused with
    /// `InvalidSize`.
    pub fn new(size: usize) -> (r: Result<Self, RuntimeError>)
        ensures
            0 < size <= max_buffer_size() ==> r is Ok && r->Ok_0.wf() && r->Ok_0.spec_size() == size
                && r->Ok_0.spec_offset() == 0 && r->Ok_0.spec_stats() == AllocationStats::zero(),
            !(0 < size <= max_buffer_size()) ==> r matches Err(RuntimeError::InvalidSize),
    {
        if size == 0 {
            return Err(RuntimeError::InvalidSize);
        }
        if size > (isize::MAX as usize) - (BUFFER_ALIGN - 1) {
            return Err(RuntimeError::InvalidSize);
        }
        Ok(BumpAllocator { size, offset: 0, stats: AllocationStats::new() })
    }

    /// Get the total size of the allocator
    pub fn size(&self) -> (r: usize)
        ensures
            r == self.spec_size(),
    {
        self.size
    }

    /// Get the current offset
    pub fn offset(&self) -> (r: usize)
        ensures
            r == self.spec_offset(),
    {
        self.offset
    }

    /// In a well-formed allocator the offset never passes the size.
    pub proof fn lemma_offset_within_size(&self)
        requires
            self.wf(),
        ensures
            self.spec_offset() <= self.spec_size(),
    {
    }

    /// Get remaining space: what lies between the offset and the size.
    pub fn remaining(&self) -> (r: usize)
        ensures
            r == super::saturating_difference(self.spec_size(), self.spec_offset()),
            self.wf() ==> r == self.spec_size() - self.spec_offset(),
    {
        self.size.saturating_sub(self.offset)
    }
}

impl Allocator for BumpAllocator {
    /// The offset stays within the size.
    closed spec fn wf(&self) -> bool {
        self.offset <= self.size
    }

    /// A power of two that the offset can be rounded up to.
    open spec fn admits(&self, align: usize) -> bool {
        alignable(self.spec_offset(), align)
    }

    /// Nothing is counted that could overflow.
    open spec fn can_release(&self) -> bool {
        true
    }

    closed spec fn spec_stats(&self) -> AllocationStats {
        self.stats
    }

    /// Serves the request at the offset rounded up to `align` and moves
    /// the offset behind it, or fails with `OutOfMemory` and changes nothing
    /// when the request would end behind the buffer.
    fn allocate(&mut self, size: usize, align: usize) -> (r: Result<(), RuntimeError>)
        ensures
            final(self).spec_size() == old(self).spec_size(),
            aligned(old(self).spec_offset(), align) + size <= old(self).spec_size() ==> r == Ok::<
                (),
                RuntimeError,
            >(()) && final(self).spec_offset() == aligned(old(self).spec_offset(), align) + size
                && final(self).spec_stats() == old(self).spec_stats().with_allocation(size),
            aligned(old(self).spec_offset(), align) + size > old(self).spec_size() ==> r == Err::<
                (),
                RuntimeError,
            >(RuntimeError::OutOfMemory) && *final(self) == *old(self),
    {
        let aligned_offset = round_up(self.offset, align);
        let end_offset = match aligned_offset.checked_add(size) {
            Some(end) => end,
            None => { return Err(RuntimeError::OutOfMemory); },
        };
        if end_offset > self.size {
            return Err(RuntimeError::OutOfMemory);
        }
        self.offset = end_offset;
        self.stats.record_allocation(size);
        Ok(())
    }

    /// Records the deallocation; the space itself comes back only with a
    /// reset.
    fn deallocate(&mut self, size: usize)
        ensures
            final(self).spec_size() == old(self).spec_size(),
            final(self).spec_offset() == old(self).spec_offset(),
            final(self).spec_stats() == old(self).spec_stats().with_deallocation(size),
    {
        self.stats.record_deallocation(size);
    }

    fn stats(&self) -> (r: AllocationStats)
    {
        self.stats
    }

    /// Gives everything back: the offset and the statistics start over.
    fn reset(&mut self) -> (r: Result<(), RuntimeError>)
        ensures
            r == Ok::<(), RuntimeError>(()),
            final(self).spec_size() == old(self).spec_size(),
            final(self).spec_offset() == 0,
    {
        self.offset = 0;
        self.stats = AllocationStats::new();
        Ok(())
    }
}

} // verus!
