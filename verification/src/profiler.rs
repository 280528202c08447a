//! Accounting of compute units.

pub mod cu_tracker;
