//! Common helpers: checked arithmetic, time, strings, validation and byte
//! conversion.

pub mod convert;
pub mod math;
pub mod strings;
pub mod time;
pub mod validation;
