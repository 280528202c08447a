//! Fixed-capacity, allocation-free collections and checked casts of byte
//! buffers, with what programs built on them share: an error type, checked
//! arithmetic and validation, the plain facts about accounts and the checks
//! on them, instruction data, and the bookkeeping of allocators and of
//! compute units.
//!
//! Every function states what it returns and what it changes, and is
//! proved to do so.

pub mod account;
pub mod allocator;
pub mod collections;
pub mod config;
pub mod context;
pub mod entrypoint;
pub mod error;
pub mod instruction;
pub mod manifest;
pub mod memory;
pub mod prelude;
pub mod profiler;
pub mod program;
pub mod runtime;
pub mod scaffold;
pub mod spinner;
pub mod utils;

use vstd::prelude::*;

verus! {

/// The main result type
pub type Result<T = ()> = core::result::Result<T, error::PinoError>;

/// Minimum supported Agave version
pub const MIN_AGAVE_VERSION: &'static str = "2.2.16";

} // verus!
