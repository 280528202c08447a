//! Layout of a fixed-size header followed by trailing data.

use super::{MemoryError, ZeroCopy};
use bytemuck::Pod;
use vstd::layout::{align_of, size_of};
use vstd::prelude::*;

verus! {

/// Calculates the total size needed for a struct with trailing data.
pub fn size_with_trailing_data<T>(trailing_len: usize) -> (r: usize)
    requires
        size_of::<T>() + trailing_len <= usize::MAX,
    ensures
        r == size_of::<T>() + trailing_len,
{
    core::mem::size_of::<T>() + trailing_len
}

/// Calculates the offset of trailing data after a struct.
pub fn trailing_data_offset<T>() -> (r: usize)
    ensures
        r == size_of::<T>(),
{
    core::mem::size_of::<T>()
}

/// Splits a byte slice into a struct reference and trailing data.
///
/// The struct is read from the first `size_of::<T>()` bytes under the rule
/// of [`ZeroCopy::try_cast_ref`]; the trailing data are the bytes behind
/// them.
pub fn split_struct_and_data<T: Pod>(bytes: &[u8]) -> (r: Result<(&T, &[u8]), MemoryError>)
    ensures
        bytes@.len() < size_of::<T>() ==> r matches Err(MemoryError::InsufficientSize),
        bytes@.len() >= size_of::<T>() ==> r is Ok || r matches Err(MemoryError::InvalidAlignment),
        bytes@.len() >= size_of::<T>() && align_of::<T>() == 1 ==> r is Ok,
        r matches Ok(parts) ==> parts.1@ == bytes@.skip(size_of::<T>() as int),
{
    let size = core::mem::size_of::<T>();
    if bytes.len() < size {
        return Err(MemoryError::InsufficientSize);
    }
    let (struct_bytes, data_bytes) = bytes.split_at(size);
    match ZeroCopy::try_cast_ref::<T>(struct_bytes) {
        Ok(value) => Ok((value, data_bytes)),
        Err(error) => Err(error),
    }
}

/// Splits a mutable byte slice into a mutable struct reference and
/// trailing data, under the rule of [`split_struct_and_data`].
///
/// What is written through the two parts lands in the buffer: through the
/// second part in the bytes behind the first `size_of::<T>()`, which it
/// starts out equal to. An error leaves the buffer as it is.
pub fn split_struct_and_data_mut<T: Pod>(bytes: &mut [u8]) -> (r: Result<
    (&mut T, &mut [u8]),
    MemoryError,
>)
    ensures
        old(bytes)@.len() < size_of::<T>() ==> r matches Err(MemoryError::InsufficientSize),
        old(bytes)@.len() >= size_of::<T>() ==> r is Ok || r matches Err(
            MemoryError::InvalidAlignment,
        ),
        old(bytes)@.len() >= size_of::<T>() && align_of::<T>() == 1 ==> r is Ok,
        r matches Ok(parts) ==> parts.1@ == old(bytes)@.skip(size_of::<T>() as int),
        r is Err ==> final(bytes)@ == old(bytes)@,
{
    let size = core::mem::size_of::<T>();
    if bytes.len() < size {
        return Err(MemoryError::InsufficientSize);
    }
    let (struct_bytes, data_bytes) = bytes.split_at_mut(size);
    match ZeroCopy::try_cast_mut::<T>(struct_bytes) {
        Ok(value) => Ok((value, data_bytes)),
        Err(error) => Err(error),
    }
}

} // verus!
