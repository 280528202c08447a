//! Pool allocation: a fixed number of blocks of one size.

use super::{AllocationStats, Allocator};
use crate::runtime::RuntimeError;
use vstd::prelude::*;

verus! {

/// A pool allocator for fixed-size blocks
pub struct PoolAllocator {
    block_size: usize,
    block_count: usize,
    free_blocks: usize,
    stats: AllocationStats,
}

impl PoolAllocator {
    /// The size of each block in bytes.
    pub closed spec fn spec_block_size(&self) -> usize {
        self.block_size
    }

    /// The number of blocks, free or taken.
    pub closed spec fn spec_block_count(&self) -> usize {
        self.block_count
    }

    /// The number of blocks that are free.
    pub closed spec fn spec_free_blocks(&self) -> usize {
        self.free_blocks
    }

    /// Create a new pool allocator with all blocks free. A block size or a
    /// block count of zero is refused with `InvalidSize`.
    pub fn new(block_size: usize, block_count: usize) -> (r: Result<Self, RuntimeError>)
        ensures
            block_size > 0 && block_count > 0 ==> r is Ok && r->Ok_0.wf()
                && r->Ok_0.spec_block_size() == block_size && r->Ok_0.spec_block_count()
                == block_count && r->Ok_0.spec_free_blocks() == block_count
                && r->Ok_0.spec_stats() == AllocationStats::zero(),
            block_size == 0 || block_count == 0 ==> r matches Err(RuntimeError::InvalidSize),
    {
        if block_size == 0 || block_count == 0 {
            return Err(RuntimeError::InvalidSize);
        }
        Ok(PoolAllocator { block_size, block_count, free_blocks: block_count, stats: AllocationStats::new() })
    }

    /// Get the block size
    pub fn block_size(&self) -> (r: usize)
        ensures
            r == self.spec_block_size(),
    {
        self.block_size
    }

    /// Get the total number of blocks
    pub fn block_count(&self) -> (r: usize)
        ensures
            r == self.spec_block_count(),
    {
        self.block_count
    }

    /// Get the number of free blocks
    pub fn free_blocks(&self) -> (r: usize)
        ensures
            r == self.spec_free_blocks(),
    {
        self.free_blocks
    }
}

impl Allocator for PoolAllocator {
    /// Nothing ties the count of free blocks to the number of blocks: a
    /// block that is returned twice is counted twice.
    open spec fn wf(&self) -> bool {
        true
    }

    /// Blocks have no alignment of their own: every one is admitted.
    open spec fn admits(&self, align: usize) -> bool {
        true
    }

    /// The count of free blocks can still grow.
    open spec fn can_release(&self) -> bool {
        self.spec_free_blocks() < usize::MAX
    }

    closed spec fn spec_stats(&self) -> AllocationStats {
        self.stats
    }

    /// Takes one block for a request that fits in one, and records a whole
    /// block as allocated. A larger request fails with `InvalidSize`, and
    /// one that finds no free block with `OutOfMemory`; both change nothing.
    fn allocate(&mut self, size: usize, align: usize) -> (r: Result<(), RuntimeError>)
        ensures
            final(self).spec_block_size() == old(self).spec_block_size(),
            final(self).spec_block_count() == old(self).spec_block_count(),
            size > old(self).spec_block_size() ==> r == Err::<(), RuntimeError>(
                RuntimeError::InvalidSize,
            ) && *final(self) == *old(self),
            size <= old(self).spec_block_size() && old(self).spec_free_blocks() == 0 ==> r == Err::<
                (),
                RuntimeError,
            >(RuntimeError::OutOfMemory) && *final(self) == *old(self),
            size <= old(self).spec_block_size() && old(self).spec_free_blocks() > 0 ==> r == Ok::<
                (),
                RuntimeError,
            >(()) && final(self).spec_free_blocks() == old(self).spec_free_blocks() - 1
                && final(self).spec_stats() == old(self).spec_stats().with_allocation(
                old(self).spec_block_size(),
            ),
    {
        if size > self.block_size {
            return Err(RuntimeError::InvalidSize);
        }
        if self.free_blocks == 0 {
            return Err(RuntimeError::OutOfMemory);
        }
        self.free_blocks -= 1;
        self.stats.record_allocation(self.block_size);
        Ok(())
    }

    /// Counts one more block as free and records a whole block as
    /// deallocated.
    fn deallocate(&mut self, size: usize)
        ensures
            final(self).spec_block_size() == old(self).spec_block_size(),
            final(self).spec_block_count() == old(self).spec_block_count(),
            final(self).spec_free_blocks() == old(self).spec_free_blocks() + 1,
            final(self).spec_stats() == old(self).spec_stats().with_deallocation(
                old(self).spec_block_size(),
            ),
    {
        self.free_blocks += 1;
        self.stats.record_deallocation(self.block_size);
    }

    fn stats(&self) -> (r: AllocationStats)
    {
        self.stats
    }

    /// Frees every block; the statistics start over.
    fn reset(&mut self) -> (r: Result<(), RuntimeError>)
        ensures
            r == Ok::<(), RuntimeError>(()),
            final(self).spec_block_size() == old(self).spec_block_size(),
            final(self).spec_block_count() == old(self).spec_block_count(),
            final(self).spec_free_blocks() == old(self).spec_block_count(),
    {
        self.free_blocks = self.block_count;
        self.stats = AllocationStats::new();
        Ok(())
    }
}

} // verus!
