use pino::allocator::bump::BumpAllocator;
use pino::allocator::pool::PoolAllocator;
use pino::allocator::region::RegionAllocator;
use pino::allocator::stack::StackAllocator;
use pino::allocator::{get_stats, init_default, round_up, set_global, AllocationStats, Allocator};
use pino::config::PinoConfig;
use pino::profiler::cu_tracker::{CuStats, CuTracker};
use pino::runtime::{init, init_with_allocator, RuntimeError};
use pino::spinner::Spinner;

fn zero_stats() -> AllocationStats {
    AllocationStats::new()
}

#[test]
fn stats_start_at_zero() {
    let s = AllocationStats::new();
    assert_eq!(s.total_allocated, 0);
    assert_eq!(s.total_deallocated, 0);
    assert_eq!(s.current_usage, 0);
    assert_eq!(s.peak_usage, 0);
    assert_eq!(s.allocation_count, 0);
    assert_eq!(s.deallocation_count, 0);
    assert_eq!(AllocationStats::default(), s);
    assert_eq!(get_stats(), s);
}

#[test]
fn stats_record_allocations_and_peak() {
    let mut s = AllocationStats::new();
    s.record_allocation(100);
    s.record_allocation(50);
    s.record_deallocation(120);
    s.record_allocation(10);
    assert_eq!(s.total_allocated, 160);
    assert_eq!(s.total_deallocated, 120);
    assert_eq!(s.current_usage, 40);
    assert_eq!(s.peak_usage, 150);
    assert_eq!(s.allocation_count, 3);
    assert_eq!(s.deallocation_count, 1);
}

#[test]
fn stats_saturate() {
    let mut s = AllocationStats::new();
    s.record_allocation(usize::MAX);
    s.record_allocation(5);
    assert_eq!(s.total_allocated, usize::MAX);
    assert_eq!(s.current_usage, usize::MAX);
    assert_eq!(s.peak_usage, usize::MAX);
    let mut s = AllocationStats::new();
    s.record_deallocation(5);
    assert_eq!(s.current_usage, 0);
    assert_eq!(s.total_deallocated, 5);
}

#[test]
fn round_up_gives_next_multiple() {
    assert_eq!(round_up(0, 8), 0);
    assert_eq!(round_up(1, 8), 8);
    assert_eq!(round_up(17, 16), 32);
    assert_eq!(round_up(5, 1), 5);
}

#[test]
fn bump_new_checks_size() {
    assert_eq!(BumpAllocator::new(0).err(), Some(RuntimeError::InvalidSize));
    assert_eq!(BumpAllocator::new(usize::MAX).err(), Some(RuntimeError::InvalidSize));
    assert_eq!(
        BumpAllocator::new(isize::MAX as usize - 6).err(),
        Some(RuntimeError::InvalidSize)
    );
    assert!(BumpAllocator::new(isize::MAX as usize - 7).is_ok());
    let a = BumpAllocator::new(64).unwrap();
    assert_eq!(a.size(), 64);
    assert_eq!(a.offset(), 0);
    assert_eq!(a.remaining(), 64);
    assert_eq!(a.stats(), zero_stats());
}

#[test]
fn bump_allocates_aligned_and_in_order() {
    let mut a = BumpAllocator::new(64).unwrap();
    assert_eq!(a.allocate(3, 1), Ok(()));
    assert_eq!(a.offset(), 3);
    assert_eq!(a.allocate(8, 8), Ok(()));
    assert_eq!(a.offset(), 16);
    assert_eq!(a.remaining(), 48);
    assert_eq!(a.stats().total_allocated, 11);
    assert_eq!(a.stats().allocation_count, 2);
    assert_eq!(a.allocate(49, 1), Err(RuntimeError::OutOfMemory));
    assert_eq!(a.offset(), 16);
    assert_eq!(a.stats().allocation_count, 2);
    assert_eq!(a.allocate(48, 16), Ok(()));
    assert_eq!(a.remaining(), 0);
    assert_eq!(a.allocate(usize::MAX, 1), Err(RuntimeError::OutOfMemory));
}

#[test]
fn bump_deallocate_only_counts_and_reset_starts_over() {
    let mut a = BumpAllocator::new(32).unwrap();
    a.allocate(10, 2).unwrap();
    a.deallocate(10);
    assert_eq!(a.offset(), 10);
    assert_eq!(a.stats().current_usage, 0);
    assert_eq!(a.stats().deallocation_count, 1);
    assert_eq!(a.reset(), Ok(()));
    assert_eq!(a.offset(), 0);
    assert_eq!(a.size(), 32);
    assert_eq!(a.stats(), zero_stats());
}

#[test]
fn pool_hands_out_blocks() {
    assert_eq!(PoolAllocator::new(0, 4).err(), Some(RuntimeError::InvalidSize));
    assert_eq!(PoolAllocator::new(16, 0).err(), Some(RuntimeError::InvalidSize));
    let mut p = PoolAllocator::new(16, 2).unwrap();
    assert_eq!(p.block_size(), 16);
    assert_eq!(p.block_count(), 2);
    assert_eq!(p.free_blocks(), 2);
    assert_eq!(p.allocate(17, 1), Err(RuntimeError::InvalidSize));
    assert_eq!(p.allocate(4, 4), Ok(()));
    assert_eq!(p.allocate(16, 8), Ok(()));
    assert_eq!(p.free_blocks(), 0);
    assert_eq!(p.stats().total_allocated, 32);
    assert_eq!(p.allocate(1, 1), Err(RuntimeError::OutOfMemory));
    assert_eq!(p.stats().allocation_count, 2);
    p.deallocate(4);
    assert_eq!(p.free_blocks(), 1);
    assert_eq!(p.stats().total_deallocated, 16);
    assert_eq!(p.reset(), Ok(()));
    assert_eq!(p.free_blocks(), 2);
    assert_eq!(p.stats(), zero_stats());
}

#[test]
fn region_moves_on_when_a_region_is_used_up() {
    assert_eq!(RegionAllocator::new(0, 1).err(), Some(RuntimeError::InvalidSize));
    assert_eq!(RegionAllocator::new(1, 0).err(), Some(RuntimeError::InvalidSize));
    let mut r = RegionAllocator::new(100, 2).unwrap();
    assert_eq!(r.region_size(), 100);
    assert_eq!(r.region_count(), 2);
    assert_eq!(r.current_region(), 0);
    assert_eq!(r.allocate(101, 1), Err(RuntimeError::InvalidSize));
    assert_eq!(r.allocate(90, 1), Ok(()));
    assert_eq!(r.current_region(), 0);
    assert_eq!(r.allocate(20, 4), Ok(()));
    assert_eq!(r.current_region(), 1);
    assert_eq!(r.allocate(80, 1), Ok(()));
    assert_eq!(r.current_region(), 1);
    assert_eq!(r.stats().allocation_count, 3);
    assert_eq!(r.allocate(1, 1), Err(RuntimeError::OutOfMemory));
    assert_eq!(r.current_region(), 2);
    assert_eq!(r.stats().allocation_count, 3);
    r.deallocate(20);
    assert_eq!(r.stats().deallocation_count, 1);
    assert_eq!(r.reset(), Ok(()));
    assert_eq!(r.current_region(), 0);
    assert_eq!(r.stats(), zero_stats());
    assert_eq!(r.allocate(100, 8), Ok(()));
}

#[test]
fn stack_allocates_and_restores_frames() {
    assert_eq!(StackAllocator::new(0).err(), Some(RuntimeError::InvalidSize));
    let mut s = StackAllocator::new(64).unwrap();
    assert_eq!(s.size(), 64);
    assert_eq!(s.top(), 0);
    assert_eq!(s.allocate(5, 1), Ok(()));
    let frame = s.push_frame();
    assert_eq!(s.allocate(8, 8), Ok(()));
    assert_eq!(s.top(), 16);
    assert_eq!(s.remaining(), 48);
    assert_eq!(s.allocate(49, 1), Err(RuntimeError::OutOfMemory));
    assert_eq!(s.top(), 16);
    let above = s.push_frame();
    assert_eq!(s.pop_frame(frame), Ok(()));
    assert_eq!(s.top(), 5);
    assert_eq!(s.pop_frame(above), Err(RuntimeError::InvalidContext));
    assert_eq!(s.top(), 5);
    s.deallocate(8);
    assert_eq!(s.top(), 5);
    assert_eq!(s.stats().deallocation_count, 1);
    assert_eq!(s.reset(), Ok(()));
    assert_eq!(s.top(), 0);
    assert_eq!(s.stats(), zero_stats());
}

#[test]
fn runtime_starts() {
    assert_eq!(init(), Ok(()));
    assert_eq!(init_default(), Ok(()));
    assert_eq!(init_with_allocator(StackAllocator::new(8).unwrap()), Ok(()));
    assert_eq!(set_global(PoolAllocator::new(8, 8).unwrap()), Ok(()));
}

#[test]
fn runtime_errors_in_words() {
    assert_eq!(RuntimeError::OutOfMemory.message(), "Out of memory");
    assert_eq!(RuntimeError::InvalidSize.message(), "Invalid allocation size");
    assert_eq!(RuntimeError::InvalidContext.message(), "Invalid program context");
    assert_eq!(RuntimeError::ProfilingError.message(), "Profiling error");
}

#[test]
fn cu_stats_book_by_category() {
    let mut s = CuStats::new();
    s.add_allocation_cu(10);
    s.add_instruction_cu(20);
    s.add_syscall_cu(30);
    assert_eq!(s.allocation_cu, 10);
    assert_eq!(s.instruction_cu, 20);
    assert_eq!(s.syscall_cu, 30);
    assert_eq!(s.total_consumed, 60);
    assert_eq!(s.peak_usage, 60);
    s.add_syscall_cu(u64::MAX);
    assert_eq!(s.syscall_cu, u64::MAX);
    assert_eq!(s.total_consumed, u64::MAX);
    assert_eq!(s.peak_usage, u64::MAX);
    s.reset();
    assert_eq!(s, CuStats::default());
    assert_eq!(s.peak_usage, 0);
}

#[test]
fn cu_tracker_records_only_when_enabled() {
    let mut t = CuTracker::new();
    assert!(t.is_enabled());
    t.track_allocation(5);
    t.track_instruction(7);
    let mark = t.checkpoint();
    t.track_syscall(11);
    assert_eq!(t.since_checkpoint(&mark), 11);
    assert_eq!(t.stats().total_consumed, 23);
    t.disable();
    assert!(!t.is_enabled());
    t.track_allocation(100);
    t.reset();
    assert_eq!(t.stats().total_consumed, 23);
    t.enable();
    t.reset();
    assert_eq!(t.stats(), CuStats::new());
    assert_eq!(t.since_checkpoint(&mark), 0);
    let d = CuTracker::disabled();
    assert!(!d.is_enabled());
    assert!(CuTracker::default().is_enabled());
}

#[test]
fn default_config() {
    let c = PinoConfig::default();
    assert_eq!(c.version, "0.1.0");
    assert_eq!(c.build.target, "bpf-unknown-unknown");
    assert_eq!(c.build.optimization, "release");
    assert_eq!(c.deploy.cluster, "devnet");
    assert_eq!(c.deploy.program_id, None);
}

#[test]
fn spinner_words_its_lines() {
    let s = Spinner::new("Building");
    assert_eq!(s.message(), "Building");
    assert_eq!(s.start_line(), "⏳ Building");
    assert_eq!(s.finish_line(true), "✅ Building completed");
    assert_eq!(s.finish_line(false), "❌ Building failed");
}

#[test]
fn region_request_whose_end_cannot_be_counted_stays_in_its_region() {
    let mut r = RegionAllocator::new(usize::MAX, 2).unwrap();
    assert_eq!(r.allocate(usize::MAX - 10, 1), Ok(()));
    assert_eq!(r.region_offset(), usize::MAX - 10);
    assert_eq!(r.allocate(20, 8), Err(RuntimeError::OutOfMemory));
    assert_eq!(r.current_region(), 0);
    assert_eq!(r.region_offset(), usize::MAX - 10);
    assert_eq!(r.stats().allocation_count, 1);
    assert_eq!(r.allocate(3, 1), Ok(()));
    assert_eq!(r.current_region(), 0);
    assert_eq!(r.allocate(usize::MAX, 1), Err(RuntimeError::OutOfMemory));
    assert_eq!(r.current_region(), 0);
    assert_eq!(r.region_offset(), usize::MAX - 7);
}

#[test]
fn remaining_is_what_lies_above_a_restored_frame() {
    let mut s = StackAllocator::new(100).unwrap();
    s.allocate(30, 1).unwrap();
    let frame = s.push_frame();
    s.allocate(50, 2).unwrap();
    assert_eq!(s.pop_frame(frame), Ok(()));
    assert_eq!(s.remaining(), 70);
    let b = BumpAllocator::new(100).unwrap();
    assert_eq!(b.remaining(), 100);
}
