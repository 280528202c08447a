//! Bookkeeping for four allocation strategies: bump, pool, region and
//! stack.
//!
//! The allocators here keep the accounts of a memory region (what is
//! taken, what is left, what was asked for) and decide each request; they
//! hand out no memory themselves.

pub mod bump;
pub mod pool;
pub mod region;

pub mod stack;

use crate::runtime::RuntimeError;
use vstd::arithmetic::power2::is_pow2;
use vstd::prelude::*;

verus! {

/// The size of the default allocator in bytes.
pub const DEFAULT_ARENA_SIZE: usize = 8192;

/// `a + b`, or the greatest `usize` where the sum would pass it.
pub open spec fn saturating_sum(a: usize, b: usize) -> usize {
    if a + b > usize::MAX {
        usize::MAX
    } else {
        (a + b) as usize
    }
}

/// `a - b`, or zero where `b` is the greater.
pub open spec fn saturating_difference(a: usize, b: usize) -> usize {
    if a < b {
        0
    } else {
        (a - b) as usize
    }
}

/// Core allocator trait
pub trait Allocator: Sized {
    /// Holds of every allocator that its module hands out; every operation
    /// keeps it.
    spec fn wf(&self) -> bool;

    /// The alignments that the allocator can round its position up to
    /// without passing the greatest `usize`: powers of two, as every layout
    /// has one.
    spec fn admits(&self, align: usize) -> bool;

    /// Whether a deallocation can be recorded without passing the greatest
    /// `usize`.
    spec fn can_release(&self) -> bool;

    /// The statistics so far.
    spec fn spec_stats(&self) -> AllocationStats;

    /// Allocate `size` bytes at a multiple of `align`
    fn allocate(&mut self, size: usize, align: usize) -> (r: Result<(), RuntimeError>)
        requires
            old(self).wf(),
            old(self).admits(align),
        ensures
            final(self).wf(),
    ;

    /// Deallocate an allocation of `size` bytes
    fn deallocate(&mut self, size: usize)
        requires
            old(self).wf(),
            old(self).can_release(),
        ensures
            final(self).wf(),
    ;

    /// Get allocation statistics
    fn stats(&self) -> (r: AllocationStats)
        ensures
            r == self.spec_stats(),
    ;

    /// Reset the allocator (if supported)
    fn reset(&mut self) -> (r: Result<(), RuntimeError>)
        requires
            old(self).wf(),
        ensures
            final(self).wf(),
            r is Ok ==> final(self).spec_stats() == AllocationStats::zero(),
    ;
}

/// Allocation statistics
#[derive(Debug, Clone, Copy, PartialEq, Eq, Structural)]
pub struct AllocationStats {
    /// Total bytes allocated
    pub total_allocated: usize,
    /// Total bytes deallocated
    pub total_deallocated: usize,
    /// Current bytes in use
    pub current_usage: usize,
    /// Peak usage
    pub peak_usage: usize,
    /// Number of allocations
    pub allocation_count: usize,
    /// Number of deallocations
    pub deallocation_count: usize,
}

impl AllocationStats {
    /// The statistics of an allocator that was never used.
    pub open spec fn zero() -> Self {
        AllocationStats {
            total_allocated: 0,
            total_deallocated: 0,
            current_usage: 0,
            peak_usage: 0,
            allocation_count: 0,
            deallocation_count: 0,
        }
    }

    /// The statistics after an allocation of `size` bytes: the totals, the
    /// usage and the count grow, each stopping at the greatest `usize`, and
    /// the peak follows the usage up.
    pub open spec fn with_allocation(self, size: usize) -> Self {
        let usage = saturating_sum(self.current_usage, size);
        AllocationStats {
            total_allocated: saturating_sum(self.total_allocated, size),
            total_deallocated: self.total_deallocated,
            current_usage: usage,
            peak_usage: if usage > self.peak_usage {
                usage
            } else {
                self.peak_usage
            },
            allocation_count: saturating_sum(self.allocation_count, 1),
            deallocation_count: self.deallocation_count,
        }
    }

    /// The statistics after a deallocation of `size` bytes: the total and
    /// the count grow, each stopping at the greatest `usize`, and the usage
    /// shrinks, stopping at zero.
    pub open spec fn with_deallocation(self, size: usize) -> Self {
        AllocationStats {
            total_allocated: self.total_allocated,
            total_deallocated: saturating_sum(self.total_deallocated, size),
            current_usage: saturating_difference(self.current_usage, size),
            peak_usage: self.peak_usage,
            allocation_count: self.allocation_count,
            deallocation_count: saturating_sum(self.deallocation_count, 1),
        }
    }

    /// Create new empty stats
    pub fn new() -> (r: Self)
        ensures
            r == Self::zero(),
    {
        AllocationStats {
            total_allocated: 0,
            total_deallocated: 0,
            current_usage: 0,
            peak_usage: 0,
            allocation_count: 0,
            deallocation_count: 0,
        }
    }

    /// Record an allocation
    pub fn record_allocation(&mut self, size: usize)
        ensures
            *final(self) == old(self).with_allocation(size),
    {
        self.total_allocated = self.total_allocated.saturating_add(size);
        self.current_usage = self.current_usage.saturating_add(size);
        self.allocation_count = self.allocation_count.saturating_add(1);
        if self.current_usage > self.peak_usage {
            self.peak_usage = self.current_usage;
        }
    }

    /// Record a deallocation
    pub fn record_deallocation(&mut self, size: usize)
        ensures
            *final(self) == old(self).with_deallocation(size),
    {
        self.total_deallocated = self.total_deallocated.saturating_add(size);
        self.current_usage = self.current_usage.saturating_sub(size);
        self.deallocation_count = self.deallocation_count.saturating_add(1);
    }
}

impl Default for AllocationStats {
    fn default() -> (r: Self)
        ensures
            r == Self::zero(),
    {
        Self::new()
    }
}

/// The least multiple of `align` that is not below `offset`: `offset`
/// plus `align - 1`, less what that leaves when divided by `align`.
pub open spec fn aligned(offset: usize, align: usize) -> int {
    (offset + align - 1) - (offset + align - 1) % (align as int)
}

/// What a request is worth checking for: a power of two as alignment, and
/// room in `usize` to round `offset` up to it.
pub open spec fn alignable(offset: usize, align: usize) -> bool {
    is_pow2(align as int) && offset + align <= usize::MAX
}

/// Rounds `offset` up to a multiple of `align`.
pub fn round_up(offset: usize, align: usize) -> (r: usize)
    requires
        alignable(offset, align),
    ensures
        r == aligned(offset, align),
        r % align == 0,
        offset <= r < offset + align,
{
    proof {
        assert(align > 0) by {
            reveal(is_pow2);
        }
    }
    crate::memory::align::align_up(offset, align)
}

/// Initialize the default allocator: a bump allocator of
/// [`DEFAULT_ARENA_SIZE`] bytes.
pub fn init_default() -> (r: Result<(), RuntimeError>)
    ensures
        r == Ok::<(), RuntimeError>(()),
{
    match bump::BumpAllocator::new(DEFAULT_ARENA_SIZE) {
        Ok(allocator) => set_global(allocator),
        Err(error) => Err(error),
    }
}

/// Set a global allocator. No global slot exists yet: the allocator is
/// dropped and the call succeeds.
pub fn set_global<A: Allocator>(_allocator: A) -> (r: Result<(), RuntimeError>)
    ensures
        r == Ok::<(), RuntimeError>(()),
{
    Ok(())
}

/// Get current allocation statistics. No global allocator exists yet, so
/// these are the statistics of an allocator that was never used.
pub fn get_stats() -> (r: AllocationStats)
    ensures
        r == AllocationStats::zero(),
{
    AllocationStats::new()
}

} // verus!
