//! Region allocation: requests are served one behind the other within a
//! region, and a request that does not fit in what is left of it opens the
//! next region.

use super::{aligned, alignable, round_up, AllocationStats, Allocator};
use crate::runtime::RuntimeError;
use vstd::prelude::*;

verus! {

/// How a request to a region allocator ends.
pub enum Outcome {
    /// It is larger than a region.
    TooLarge,
    /// Its end cannot be counted in a `usize`.
    Uncountable,
    /// It is served in the region in use and ends at the given offset.
    Here(usize),
    /// It is served at the start of the next region.
    Next,
    /// It would need a region behind the last one.
    Exhausted,
}

/// A region-based allocator
pub struct RegionAllocator {
    region_size: usize,
    region_count: usize,
    current_region: usize,
    region_offset: usize,
    stats: AllocationStats,
}

impl RegionAllocator {
    /// The size of each region in bytes.
    pub closed spec fn spec_region_size(&self) -> usize {
        self.region_size
    }

    /// The number of regions.
    pub closed spec fn spec_region_count(&self) -> usize {
        self.region_count
    }

    /// The index of the region in use. It passes the last region when a
    /// request found them all used up.
    pub closed spec fn spec_current_region(&self) -> usize {
        self.current_region
    }

    /// The offset behind the last allocation in the region in use.
    pub closed spec fn spec_region_offset(&self) -> usize {
        self.region_offset
    }

    /// Whether a request of `size` bytes at `align` fits in what is left of
    /// the region in use.
    pub open spec fn fits(&self, size: usize, align: usize) -> bool {
        aligned(self.spec_region_offset(), align) + size <= self.spec_region_size()
    }

    /// How a request of `size` bytes at `align` ends.
    pub open spec fn outcome(&self, size: usize, align: usize) -> Outcome {
        if size > self.spec_region_size() {
            Outcome::TooLarge
        } else if aligned(self.spec_region_offset(), align) + size > usize::MAX {
            Outcome::Uncountable
        } else if self.fits(size, align) {
            Outcome::Here((aligned(self.spec_region_offset(), align) + size) as usize)
        } else if self.spec_current_region() + 1 < self.spec_region_count() {
            Outcome::Next
        } else {
            Outcome::Exhausted
        }
    }

    /// In a well-formed allocator the offset never passes the size of a
    /// region.
    pub proof fn lemma_offset_within_region(&self)
        requires
            self.wf(),
        ensures
            self.spec_region_offset() <= self.spec_region_size(),
    {
    }

    /// Create a new region allocator, at the start of its first region. A
    /// region size or a region count of zero is refused with `InvalidSize`.
    pub fn new(region_size: usize, region_count: usize) -> (r: Result<Self, RuntimeError>)
        ensures
            region_size > 0 && region_count > 0 ==> r is Ok && r->Ok_0.wf()
                && r->Ok_0.spec_region_size() == region_size && r->Ok_0.spec_region_count()
                == region_count && r->Ok_0.spec_current_region() == 0
                && r->Ok_0.spec_region_offset() == 0 && r->Ok_0.spec_stats()
                == AllocationStats::zero(),
            region_size == 0 || region_count == 0 ==> r matches Err(RuntimeError::InvalidSize),
    {
        if region_size == 0 || region_count == 0 {
            return Err(RuntimeError::InvalidSize);
        }
        Ok(
            RegionAllocator {
                region_size,
                region_count,
                current_region: 0,
                region_offset: 0,
                stats: AllocationStats::new(),
            },
        )
    }

    /// Get the region size
    pub fn region_size(&self) -> (r: usize)
        ensures
            r == self.spec_region_size(),
    {
        self.region_size
    }

    /// Get the number of regions
    pub fn region_count(&self) -> (r: usize)
        ensures
            r == self.spec_region_count(),
    {
        self.region_count
    }

    /// Get the current region
    pub fn current_region(&self) -> (r: usize)
        ensures
            r == self.spec_current_region(),
    {
        self.current_region
    }

    /// Get the offset within the current region
    pub fn region_offset(&self) -> (r: usize)
        ensures
            r == self.spec_region_offset(),
    {
        self.region_offset
    }
}

impl Allocator for RegionAllocator {
    /// The offset stays within the region.
    closed spec fn wf(&self) -> bool {
        self.region_offset <= self.region_size
    }

    /// A power of two that the offset can be rounded up to, while the index
    /// of the region can still grow.
    open spec fn admits(&self, align: usize) -> bool {
        alignable(self.spec_region_offset(), align) && self.spec_current_region() < usize::MAX
    }

    /// Nothing is counted that could overflow.
    open spec fn can_release(&self) -> bool {
        true
    }

    closed spec fn spec_stats(&self) -> AllocationStats {
        self.stats
    }

    /// Serves a request that fits in one region.
    ///
    /// One that is larger than a region fails with `InvalidSize`, and one
    /// whose end cannot be counted in a `usize` with `OutOfMemory`; both
    /// change nothing. One that fits in what is left of the region in use is
    /// served there, at the offset rounded up to `align`. Any other moves on
    /// to the next region and is served at its start; where no region is
    /// left it fails with `OutOfMemory`, and the index of the region stays
    /// moved.
    fn allocate(&mut self, size: usize, align: usize) -> (r: Result<(), RuntimeError>)
        ensures
            final(self).spec_region_size() == old(self).spec_region_size(),
            final(self).spec_region_count() == old(self).spec_region_count(),
            r is Ok ==> final(self).spec_stats() == old(self).spec_stats().with_allocation(size),
            r is Err ==> final(self).spec_stats() == old(self).spec_stats(),
            r is Err ==> final(self).spec_region_offset() == old(self).spec_region_offset(),
            match old(self).outcome(size, align) {
                Outcome::TooLarge => r == Err::<(), RuntimeError>(RuntimeError::InvalidSize)
                    && *final(self) == *old(self),
                Outcome::Uncountable => r == Err::<(), RuntimeError>(RuntimeError::OutOfMemory)
                    && *final(self) == *old(self),
                Outcome::Here(end) => r == Ok::<(), RuntimeError>(())
                    && final(self).spec_current_region() == old(self).spec_current_region()
                    && final(self).spec_region_offset() == end,
                Outcome::Next => r == Ok::<(), RuntimeError>(())
                    && final(self).spec_current_region() == old(self).spec_current_region() + 1
                    && final(self).spec_region_offset() == size,
                Outcome::Exhausted => r == Err::<(), RuntimeError>(RuntimeError::OutOfMemory)
                    && final(self).spec_current_region() == old(self).spec_current_region() + 1,
            },
    {
        if size > self.region_size {
            return Err(RuntimeError::InvalidSize);
        }
        let aligned_offset = round_up(self.region_offset, align);
        let end_offset = match aligned_offset.checked_add(size) {
            Some(end) => end,
            None => { return Err(RuntimeError::OutOfMemory); },
        };
        if end_offset > self.region_size {
            self.current_region += 1;
            if self.current_region >= self.region_count {
                return Err(RuntimeError::OutOfMemory);
            }
            self.region_offset = size;
        } else {
            self.region_offset = end_offset;
        }
        self.stats.record_allocation(size);
        Ok(())
    }

    /// Records the deallocation; the space itself comes back only with a
    /// reset.
    fn deallocate(&mut self, size: usize)
        ensures
            final(self).spec_region_size() == old(self).spec_region_size(),
            final(self).spec_region_count() == old(self).spec_region_count(),
            final(self).spec_current_region() == old(self).spec_current_region(),
            final(self).spec_region_offset() == old(self).spec_region_offset(),
            final(self).spec_stats() == old(self).spec_stats().with_deallocation(size),
    {
        self.stats.record_deallocation(size);
    }

    fn stats(&self) -> (r: AllocationStats)
    {
        self.stats
    }

    /// Gives everything back: the allocator is at the start of its first
    /// region again, and the statistics start over.
    fn reset(&mut self) -> (r: Result<(), RuntimeError>)
        ensures
            r == Ok::<(), RuntimeError>(()),
            final(self).spec_region_size() == old(self).spec_region_size(),
            final(self).spec_region_count() == old(self).spec_region_count(),
            final(self).spec_current_region() == 0,
            final(self).spec_region_offset() == 0,
    {
        self.current_region = 0;
        self.region_offset = 0;
        self.stats = AllocationStats::new();
        Ok(())
    }
}

} // verus!
