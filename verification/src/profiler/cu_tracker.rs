//! Compute unit tracking.

use vstd::prelude::*;

verus! {

/// `a + b`, or the greatest `u64` where the sum would pass it.
pub open spec fn saturating_total(a: u64, b: u64) -> u64 {
    if a + b > u64::MAX {
        u64::MAX
    } else {
        (a + b) as u64
    }
}

/// The three kinds of work that compute units are booked under.
#[derive(Debug, Clone, Copy, PartialEq, Eq, Structural)]
pub enum CuCategory {
    /// Memory allocation
    Allocation,
    /// Instruction execution
    Instruction,
    /// System calls
    Syscall,
}

/// CU tracking statistics
#[derive(Debug, Clone, Copy, PartialEq, Eq, Structural)]
pub struct CuStats {
    /// Total CU consumed
    pub total_consumed: u64,
    /// CU consumed by allocations
    pub allocation_cu: u64,
    /// CU consumed by instructions
    pub instruction_cu: u64,
    /// CU consumed by system calls
    pub syscall_cu: u64,
    /// Peak CU usage
    pub peak_usage: u64,
}

impl CuStats {
    /// The statistics before anything was consumed.
    pub open spec fn zero() -> Self {
        CuStats { total_consumed: 0, allocation_cu: 0, instruction_cu: 0, syscall_cu: 0, peak_usage: 0 }
    }

    /// The statistics after `cu` units were booked under `category`: its
    /// own sum and the total grow, each stopping at the greatest `u64`, and
    /// the peak follows the total up.
    pub open spec fn with(self, category: CuCategory, cu: u64) -> Self {
        let total = saturating_total(self.total_consumed, cu);
        CuStats {
            total_consumed: total,
            allocation_cu: if category == CuCategory::Allocation {
                saturating_total(self.allocation_cu, cu)
            } else {
                self.allocation_cu
            },
            instruction_cu: if category == CuCategory::Instruction {
                saturating_total(self.instruction_cu, cu)
            } else {
                self.instruction_cu
            },
            syscall_cu: if category == CuCategory::Syscall {
                saturating_total(self.syscall_cu, cu)
            } else {
                self.syscall_cu
            },
            peak_usage: if total > self.peak_usage {
                total
            } else {
                self.peak_usage
            },
        }
    }

    /// Create new empty stats
    pub fn new() -> (r: Self)
        ensures
            r == Self::zero(),
    {
        CuStats { total_consumed: 0, allocation_cu: 0, instruction_cu: 0, syscall_cu: 0, peak_usage: 0 }
    }

    /// Books `cu` units to the total and lifts the peak to it.
    fn add_to_total(&mut self, cu: u64)
        ensures
            final(self).total_consumed == saturating_total(old(self).total_consumed, cu),
            final(self).peak_usage == if final(self).total_consumed > old(self).peak_usage {
                final(self).total_consumed
            } else {
                old(self).peak_usage
            },
            final(self).allocation_cu == old(self).allocation_cu,
            final(self).instruction_cu == old(self).instruction_cu,
            final(self).syscall_cu == old(self).syscall_cu,
    {
        self.total_consumed = self.total_consumed.saturating_add(cu);
        if self.total_consumed > self.peak_usage {
            self.peak_usage = self.total_consumed;
        }
    }

    /// Add CU consumption for allocation
    pub fn add_allocation_cu(&mut self, cu: u64)
        ensures
            *final(self) == old(self).with(CuCategory::Allocation, cu),
    {
        self.allocation_cu = self.allocation_cu.saturating_add(cu);
        self.add_to_total(cu);
    }

    /// Add CU consumption for instruction
    pub fn add_instruction_cu(&mut self, cu: u64)
        ensures
            *final(self) == old(self).with(CuCategory::Instruction, cu),
    {
        self.instruction_cu = self.instruction_cu.saturating_add(cu);
        self.add_to_total(cu);
    }

    /// Add CU consumption for syscall
    pub fn add_syscall_cu(&mut self, cu: u64)
        ensures
            *final(self) == old(self).with(CuCategory::Syscall, cu),
    {
        self.syscall_cu = self.syscall_cu.saturating_add(cu);
        self.add_to_total(cu);
    }

    /// Reset all stats
    pub fn reset(&mut self)
        ensures
            *final(self) == Self::zero(),
    {
        *self = Self::new();
    }
}

impl Default for CuStats {
    fn default() -> (r: Self)
        ensures
            r == Self::zero(),
    {
        Self::new()
    }
}

/// A checkpoint for measuring CU consumption
#[derive(Debug, Clone, Copy)]
pub struct CuCheckpoint {
    total_consumed: u64,
}

impl CuCheckpoint {
    /// The total that had been consumed when the checkpoint was taken.
    pub closed spec fn spec_total(&self) -> u64 {
        self.total_consumed
    }
}

/// CU tracker for profiling performance
pub struct CuTracker {
    stats: CuStats,
    enabled: bool,
}

impl CuTracker {
    /// The statistics so far.
    pub closed spec fn spec_stats(&self) -> CuStats {
        self.stats
    }

    /// Whether the tracker records.
    pub closed spec fn spec_enabled(&self) -> bool {
        self.enabled
    }

    /// Create a new CU tracker
    pub fn new() -> (r: Self)
        ensures
            r.spec_enabled(),
            r.spec_stats() == CuStats::zero(),
    {
        CuTracker { stats: CuStats::new(), enabled: true }
    }

    /// Create a disabled CU tracker (for production)
    pub fn disabled() -> (r: Self)
        ensures
            !r.spec_enabled(),
            r.spec_stats() == CuStats::zero(),
    {
        CuTracker { stats: CuStats::new(), enabled: false }
    }

    /// Enable tracking
    pub fn enable(&mut self)
        ensures
            final(self).spec_enabled(),
            final(self).spec_stats() == old(self).spec_stats(),
    {
        self.enabled = true;
    }

    /// Disable tracking
    pub fn disable(&mut self)
        ensures
            !final(self).spec_enabled(),
            final(self).spec_stats() == old(self).spec_stats(),
    {
        self.enabled = false;
    }

    /// Check if tracking is enabled
    pub fn is_enabled(&self) -> (r: bool)
        ensures
            r == self.spec_enabled(),
    {
        self.enabled
    }

    /// Track allocation CU; a disabled tracker records nothing.
    pub fn track_allocation(&mut self, cu: u64)
        ensures
            final(self).spec_enabled() == old(self).spec_enabled(),
            final(self).spec_stats() == if old(self).spec_enabled() {
                old(self).spec_stats().with(CuCategory::Allocation, cu)
            } else {
                old(self).spec_stats()
            },
    {
        if self.enabled {
            self.stats.add_allocation_cu(cu);
        }
    }

    /// Track instruction CU; a disabled tracker records nothing.
    pub fn track_instruction(&mut self, cu: u64)
        ensures
            final(self).spec_enabled() == old(self).spec_enabled(),
            final(self).spec_stats() == if old(self).spec_enabled() {
                old(self).spec_stats().with(CuCategory::Instruction, cu)
            } else {
                old(self).spec_stats()
            },
    {
        if self.enabled {
            self.stats.add_instruction_cu(cu);
        }
    }

    /// Track syscall CU; a disabled tracker records nothing.
    pub fn track_syscall(&mut self, cu: u64)
        ensures
            final(self).spec_enabled() == old(self).spec_enabled(),
            final(self).spec_stats() == if old(self).spec_enabled() {
                old(self).spec_stats().with(CuCategory::Syscall, cu)
            } else {
                old(self).spec_stats()
            },
    {
        if self.enabled {
            self.stats.add_syscall_cu(cu);
        }
    }

    /// Get current stats
    pub fn stats(&self) -> (r: CuStats)
        ensures
            r == self.spec_stats(),
    {
        self.stats
    }

    /// Reset stats; a disabled tracker keeps what it has.
    pub fn reset(&mut self)
        ensures
            final(self).spec_enabled() == old(self).spec_enabled(),
            final(self).spec_stats() == if old(self).spec_enabled() {
                CuStats::zero()
            } else {
                old(self).spec_stats()
            },
    {
        if self.enabled {
            self.stats.reset();
        }
    }

    /// Get a profiling checkpoint
    pub fn checkpoint(&self) -> (r: CuCheckpoint)
        ensures
            r.spec_total() == self.spec_stats().total_consumed,
    {
        CuCheckpoint { total_consumed: self.stats.total_consumed }
    }

    /// Calculate CU consumed since checkpoint; zero where the total has
    /// fallen below it since.
    pub fn since_checkpoint(&self, checkpoint: &CuCheckpoint) -> (r: u64)
        ensures
            r == if self.spec_stats().total_consumed >= checkpoint.spec_total() {
                self.spec_stats().total_consumed - checkpoint.spec_total()
            } else {
                0
            },
    {
        let current = self.stats.total_consumed;
        current.saturating_sub(checkpoint.total_consumed)
    }
}

impl Default for CuTracker {
    fn default() -> (r: Self)
        ensures
            r.spec_enabled(),
            r.spec_stats() == CuStats::zero(),
    {
        Self::new()
    }
}

} // verus!
