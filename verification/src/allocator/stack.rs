//! Stack allocation: requests are served one on top of the other, and a
//! frame gives back all that was served since it was made.

use super::{aligned, alignable, round_up, saturating_difference, AllocationStats, Allocator};
use crate::runtime::RuntimeError;
use vstd::prelude::*;

verus! {

/// A stack-based allocator
pub struct StackAllocator {
    size: usize,
    top: usize,
    stats: AllocationStats,
}

/// A stack frame representing a checkpoint
#[derive(Debug, Clone, Copy)]
pub struct StackFrame {
    position: usize,
}

impl StackFrame {
    /// The top of the stack when the frame was made.
    pub closed spec fn spec_position(&self) -> usize {
        self.position
    }
}

impl StackAllocator {
    /// The total size in bytes.
    pub closed spec fn spec_size(&self) -> usize {
        self.size
    }

    /// The position above the last allocation.
    pub closed spec fn spec_top(&self) -> usize {
        self.top
    }

    /// Create a new stack allocator. A size of zero is refused with
    /// `InvalidSize`.
    pub fn new(size: usize) -> (r: Result<Self, RuntimeError>)
        ensures
            size > 0 ==> r is Ok && r->Ok_0.wf() && r->Ok_0.spec_size() == size
                && r->Ok_0.spec_top() == 0 && r->Ok_0.spec_stats() == AllocationStats::zero(),
            size == 0 ==> r matches Err(RuntimeError::InvalidSize),
    {
        if size == 0 {
            return Err(RuntimeError::InvalidSize);
        }
        Ok(StackAllocator { size, top: 0, stats: AllocationStats::new() })
    }

    /// Get the total size
    pub fn size(&self) -> (r: usize)
        ensures
            r == self.spec_size(),
    {
        self.size
    }

    /// Get the current top position
    pub fn top(&self) -> (r: usize)
        ensures
            r == self.spec_top(),
    {
        self.top
    }

    /// In a well-formed allocator the top never passes the size.
    pub proof fn lemma_top_within_size(&self)
        requires
            self.wf(),
        ensures
            self.spec_top() <= self.spec_size(),
    {
    }

    /// Get remaining space: what lies between the top and the size.
    pub fn remaining(&self) -> (r: usize)
        ensures
            r == saturating_difference(self.spec_size(), self.spec_top()),
            self.wf() ==> r == self.spec_size() - self.spec_top(),
    {
        self.size.saturating_sub(self.top)
    }

    /// Create a stack frame (checkpoint)
    pub fn push_frame(&self) -> (r: StackFrame)
        ensures
            r.spec_position() == self.spec_top(),
    {
        StackFrame { position: self.top }
    }

    /// Restore to a previous frame: the top goes back to where the frame
    /// was made. A frame from above the top is refused with
    /// `InvalidContext`, and nothing changes.
    pub fn pop_frame(&mut self, frame: StackFrame) -> (r: Result<(), RuntimeError>)
        requires
            old(self).wf(),
        ensures
            final(self).wf(),
            final(self).spec_size() == old(self).spec_size(),
            final(self).spec_stats() == old(self).spec_stats(),
            frame.spec_position() <= old(self).spec_top() ==> r == Ok::<(), RuntimeError>(())
                && final(self).spec_top() == frame.spec_position(),
            frame.spec_position() > old(self).spec_top() ==> r == Err::<(), RuntimeError>(
                RuntimeError::InvalidContext,
            ) && final(self).spec_top() == old(self).spec_top(),
    {
        if frame.position > self.top {
            return Err(RuntimeError::InvalidContext);
        }
        self.top = frame.position;
        Ok(())
    }
}

impl Allocator for StackAllocator {
    /// The top stays within the size.
    closed spec fn wf(&self) -> bool {
        self.top <= self.size
    }

    /// A power of two that the top can be rounded up to.
    open spec fn admits(&self, align: usize) -> bool {
        alignable(self.spec_top(), align)
    }

    /// Nothing is counted that could overflow.
    open spec fn can_release(&self) -> bool {
        true
    }

    closed spec fn spec_stats(&self) -> AllocationStats {
        self.stats
    }

    /// Serves the request at the top rounded up to `align` and moves the
    /// top above it, or fails with `OutOfMemory` and changes nothing when
    /// the request would end above the stack.
    fn allocate(&mut self, size: usize, align: usize) -> (r: Result<(), RuntimeError>)
        ensures
            final(self).spec_size() == old(self).spec_size(),
            aligned(old(self).spec_top(), align) + size <= old(self).spec_size() ==> r == Ok::<
                (),
                RuntimeError,
            >(()) && final(self).spec_top() == aligned(old(self).spec_top(), align) + size
                && final(self).spec_stats() == old(self).spec_stats().with_allocation(size),
            aligned(old(self).spec_top(), align) + size > old(self).spec_size() ==> r == Err::<
                (),
                RuntimeError,
            >(RuntimeError::OutOfMemory) && *final(self) == *old(self),
    {
        let aligned_top = round_up(self.top, align);
        let end_top = match aligned_top.checked_add(size) {
            Some(end) => end,
            None => { return Err(RuntimeError::OutOfMemory); },
        };
        if end_top > self.size {
            return Err(RuntimeError::OutOfMemory);
        }
        self.top = end_top;
        self.stats.record_allocation(size);
        Ok(())
    }

    /// Records the deallocation; the top moves only with a frame or a
    /// reset.
    fn deallocate(&mut self, size: usize)
        ensures
            final(self).spec_size() == old(self).spec_size(),
            final(self).spec_top() == old(self).spec_top(),
            final(self).spec_stats() == old(self).spec_stats().with_deallocation(size),
    {
        self.stats.record_deallocation(size);
    }

    fn stats(&self) -> (r: AllocationStats)
    {
        self.stats
    }

    /// Gives everything back: the top and the statistics start over.
    fn reset(&mut self) -> (r: Result<(), RuntimeError>)
        ensures
            r == Ok::<(), RuntimeError>(()),
            final(self).spec_size() == old(self).spec_size(),
            final(self).spec_top() == 0,
    {
        self.top = 0;
        self.stats = AllocationStats::new();
        Ok(())
    }
}

} // verus!
