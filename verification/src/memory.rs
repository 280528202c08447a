//! Checked reinterpretation of byte buffers, and layout arithmetic.

pub mod align;
pub mod layout;

use bytemuck::{Pod, PodCastError};
use vstd::layout::{align_of, layout_for_type_is_valid, size_of};
use vstd::prelude::*;

verus! {

/// Memory operation errors.
#[derive(Debug, Clone, Copy, PartialEq, Eq, Structural)]
pub enum MemoryError {
    /// Insufficient buffer size for the operation
    InsufficientSize,
    /// Invalid memory alignment for the type
    InvalidAlignment,
    /// Memory region overlap detected
    OverlapDetected,
}

/// What stands in the way of reading one value of `size` bytes, aligned to
/// `align`, at the start of a buffer of `len` bytes that begins at
/// `address`: a buffer that is too short, else a start that is not a
/// multiple of `align`, else nothing.
pub open spec fn cast_obstacle(len: nat, address: nat, size: nat, align: nat) -> Option<MemoryError> {
    if len < size {
        Some(MemoryError::InsufficientSize)
    } else if address % align != 0 {
        Some(MemoryError::InvalidAlignment)
    } else {
        None
    }
}

/// `len` bytes are a whole number of values of `size` bytes each; of
/// values without size, only no bytes are.
pub open spec fn whole_elements(len: nat, size: nat) -> bool {
    if size == 0 {
        len == 0
    } else {
        len % size == 0
    }
}

/// What stands in the way of reading the whole buffer as values of `size`
/// bytes each: what stands in the way of reading one, else a length that is
/// not a whole number of values.
pub open spec fn slice_cast_obstacle(len: nat, address: nat, size: nat, align: nat) -> Option<
    MemoryError,
> {
    if cast_obstacle(len, address, size, align) is Some {
        cast_obstacle(len, address, size, align)
    } else if !whole_elements(len, size) {
        Some(MemoryError::InsufficientSize)
    } else {
        None
    }
}

/// Decides whether a buffer of `len` bytes that begins at `address` can be
/// read as one value of `size` bytes aligned to `align`.
pub fn check_cast(len: usize, address: usize, size: usize, align: usize) -> (r: Result<
    (),
    MemoryError,
>)
    requires
        align > 0,
    ensures
        r == match cast_obstacle(len as nat, address as nat, size as nat, align as nat) {
            Some(error) => Err::<(), MemoryError>(error),
            None => Ok::<(), MemoryError>(()),
        },
{
    if len < size {
        return Err(MemoryError::InsufficientSize);
    }
    if address % align != 0 {
        return Err(MemoryError::InvalidAlignment);
    }
    Ok(())
}

/// Decides whether a buffer of `len` bytes that begins at `address` can be
/// read as a sequence of values of `size` bytes aligned to `align`.
pub fn check_slice_cast(len: usize, address: usize, size: usize, align: usize) -> (r: Result<
    (),
    MemoryError,
>)
    requires
        align > 0,
    ensures
        r == match slice_cast_obstacle(len as nat, address as nat, size as nat, align as nat) {
            Some(error) => Err::<(), MemoryError>(error),
            None => Ok::<(), MemoryError>(()),
        },
{
    match check_cast(len, address, size, align) {
        Err(error) => Err(error),
        Ok(()) => {
            if size == 0 {
                if len != 0 {
                    return Err(MemoryError::InsufficientSize);
                }
            } else if len % size != 0 {
                return Err(MemoryError::InsufficientSize);
            }
            Ok(())
        },
    }
}

/// Declares [`bytemuck::PodCastError`], which is only told apart from
/// success.
#[verifier::external_type_specification]
#[verifier::external_body]
pub struct ExPodCastError(PodCastError);

/// Calls `<[u8]>::as_ptr` and gives the address it points to. The address
/// is the machine's choice, so nothing is said of it.
#[verifier::external_body]
fn start_address(bytes: &[u8]) -> (address: usize) {
    bytes.as_ptr() as usize
}

/// Calls [`bytemuck::try_from_bytes`], which refuses a buffer whose length
/// is not the size of `T` or whose start is not aligned for `T`, and else
/// hands out the buffer as a `T`. Every start is aligned for a `T` of
/// alignment 1, so there the length alone decides.
#[verifier::external_body]
fn view_as<T: Pod>(bytes: &[u8]) -> (r: Result<&T, PodCastError>)
    ensures
        bytes@.len() != size_of::<T>() ==> r is Err,
        bytes@.len() == size_of::<T>() && align_of::<T>() == 1 ==> r is Ok,
{
    bytemuck::try_from_bytes(bytes)
}

/// Calls [`bytemuck::try_from_bytes_mut`], which refuses a buffer whose
/// length is not the size of `T` or whose start is not aligned for `T`, and
/// else hands out the buffer as a `T`. Every start is aligned for a `T` of
/// alignment 1, so there the length alone decides. A refusal leaves the
/// bytes as they are, and no write through the `T` can change how many
/// there are.
#[verifier::external_body]
fn view_as_mut<T: Pod>(bytes: &mut [u8]) -> (r: Result<&mut T, PodCastError>)
    ensures
        old(bytes)@.len() != size_of::<T>() ==> r is Err,
        old(bytes)@.len() == size_of::<T>() && align_of::<T>() == 1 ==> r is Ok,
        r is Err ==> final(bytes)@ == old(bytes)@,
        final(bytes)@.len() == old(bytes)@.len(),
{
    bytemuck::try_from_bytes_mut(bytes)
}

/// Calls [`bytemuck::try_cast_slice`] from bytes to `T`, which refuses a
/// start that is not aligned for `T` and a length that is not a whole
/// number of `T`s, and else hands out the buffer as that many `T`s. For a
/// `T` of alignment 1 it does not look at the start, so there the length
/// alone decides.
#[verifier::external_body]
fn view_as_slice<T: Pod>(bytes: &[u8]) -> (r: Result<&[T], PodCastError>)
    ensures
        r matches Ok(items) ==> items@.len() * size_of::<T>() == bytes@.len(),
        align_of::<T>() == 1 && whole_elements(bytes@.len(), size_of::<T>()) ==> r is Ok,
{
    bytemuck::try_cast_slice(bytes)
}

/// Calls [`bytemuck::try_cast_slice_mut`] from bytes to `T`, which refuses
/// a start that is not aligned for `T` and a length that is not a whole
/// number of `T`s, and else hands out the buffer as that many `T`s. For a
/// `T` of alignment 1 it does not look at the start, so there the length
/// alone decides. A refusal leaves the bytes as they are, and no write
/// through the `T`s can change how many bytes there are.
#[verifier::external_body]
fn view_as_slice_mut<T: Pod>(bytes: &mut [u8]) -> (r: Result<&mut [T], PodCastError>)
    ensures
        r matches Ok(items) ==> items@.len() * size_of::<T>() == old(bytes)@.len(),
        align_of::<T>() == 1 && whole_elements(old(bytes)@.len(), size_of::<T>()) ==> r is Ok,
        r is Err ==> final(bytes)@ == old(bytes)@,
        final(bytes)@.len() == old(bytes)@.len(),
{
    bytemuck::try_cast_slice_mut(bytes)
}

/// Zero-copy memory utilities for efficient data handling.
pub struct ZeroCopy;

impl ZeroCopy {
    /// Casts a byte slice to a reference of type T. No cast goes unchecked:
    /// this is [`ZeroCopy::try_cast_ref`].
    pub fn cast_ref<T: Pod>(bytes: &[u8]) -> (r: Result<&T, MemoryError>)
        ensures
            bytes@.len() < size_of::<T>() ==> r matches Err(MemoryError::InsufficientSize),
            bytes@.len() >= size_of::<T>() ==> r is Ok || r matches Err(
                MemoryError::InvalidAlignment,
            ),
            bytes@.len() >= size_of::<T>() && align_of::<T>() == 1 ==> r is Ok,
    {
        Self::try_cast_ref(bytes)
    }

    /// Casts a mutable byte slice to a mutable reference of type T. No cast
    /// goes unchecked: this is [`ZeroCopy::try_cast_mut`].
    pub fn cast_mut<T: Pod>(bytes: &mut [u8]) -> (r: Result<&mut T, MemoryError>)
        ensures
            old(bytes)@.len() < size_of::<T>() ==> r matches Err(MemoryError::InsufficientSize),
            old(bytes)@.len() >= size_of::<T>() ==> r is Ok || r matches Err(
                MemoryError::InvalidAlignment,
            ),
            old(bytes)@.len() >= size_of::<T>() && align_of::<T>() == 1 ==> r is Ok,
            r is Err ==> final(bytes)@ == old(bytes)@,
            final(bytes)@.len() == old(bytes)@.len(),
            final(bytes)@.skip(size_of::<T>() as int) == old(bytes)@.skip(size_of::<T>() as int),
    {
        Self::try_cast_mut(bytes)
    }

    /// Casts a byte slice to a reference of type T with validation.
    ///
    /// The reference covers the first `size_of::<T>()` bytes. A buffer
    /// shorter than that gives `InsufficientSize`; one that is long enough
    /// gives `InvalidAlignment` if it does not start at a multiple of `T`'s
    /// alignment, as [`check_cast`] decides from the address, and the
    /// reference if it does. For a `T` of alignment 1 every start is one, so
    /// a buffer that is long enough always gives the reference.
    pub fn try_cast_ref<T: Pod>(bytes: &[u8]) -> (r: Result<&T, MemoryError>)
        ensures
            bytes@.len() < size_of::<T>() ==> r matches Err(MemoryError::InsufficientSize),
            bytes@.len() >= size_of::<T>() ==> r is Ok || r matches Err(
                MemoryError::InvalidAlignment,
            ),
            bytes@.len() >= size_of::<T>() && align_of::<T>() == 1 ==> r is Ok,
    {
        layout_for_type_is_valid::<T>();
        let size = core::mem::size_of::<T>();
        let align = core::mem::align_of::<T>();
        match check_cast(bytes.len(), start_address(bytes), size, align) {
            Err(error) => Err(error),
            Ok(()) => match view_as::<T>(&bytes[0..size]) {
                Ok(value) => Ok(value),
                Err(_) => Err(MemoryError::InvalidAlignment),
            },
        }
    }

    /// Casts a mutable byte slice to a mutable reference of type T with
    /// validation, under the rule of [`ZeroCopy::try_cast_ref`].
    ///
    /// What is written through the reference lands in the first
    /// `size_of::<T>()` bytes of the buffer; the bytes behind them, and the
    /// whole buffer on an error, stay as they are.
    pub fn try_cast_mut<T: Pod>(bytes: &mut [u8]) -> (r: Result<&mut T, MemoryError>)
        ensures
            old(bytes)@.len() < size_of::<T>() ==> r matches Err(MemoryError::InsufficientSize),
            old(bytes)@.len() >= size_of::<T>() ==> r is Ok || r matches Err(
                MemoryError::InvalidAlignment,
            ),
            old(bytes)@.len() >= size_of::<T>() && align_of::<T>() == 1 ==> r is Ok,
            r is Err ==> final(bytes)@ == old(bytes)@,
            final(bytes)@.len() == old(bytes)@.len(),
            final(bytes)@.skip(size_of::<T>() as int) == old(bytes)@.skip(size_of::<T>() as int),
    {
        layout_for_type_is_valid::<T>();
        let size = core::mem::size_of::<T>();
        let align = core::mem::align_of::<T>();
        match check_cast(bytes.len(), start_address(bytes), size, align) {
            Err(error) => Err(error),
            Ok(()) => {
                let (head, _tail) = bytes.split_at_mut(size);
                match view_as_mut::<T>(head) {
                    Ok(value) => Ok(value),
                    Err(_) => Err(MemoryError::InvalidAlignment),
                }
            },
        }
    }

    /// Casts a byte slice to a slice of type T with validation.
    ///
    /// On top of the rule of [`ZeroCopy::try_cast_ref`], the length of the
    /// buffer must be a whole number of `T`s, or the error is
    /// `InsufficientSize`; the slice then holds that many. [`check_slice_cast`]
    /// decides from the address; for a `T` of alignment 1 the length alone
    /// decides.
    pub fn cast_slice<T: Pod>(bytes: &[u8]) -> (r: Result<&[T], MemoryError>)
        ensures
            r matches Ok(items) ==> items@.len() * size_of::<T>() == bytes@.len(),
            r matches Ok(_) ==> bytes@.len() >= size_of::<T>(),
            r matches Err(error) ==> error == MemoryError::InsufficientSize || error
                == MemoryError::InvalidAlignment,
            bytes@.len() < size_of::<T>() ==> r matches Err(MemoryError::InsufficientSize),
            !whole_elements(bytes@.len(), size_of::<T>()) ==> r is Err,
            align_of::<T>() == 1 && bytes@.len() >= size_of::<T>() && whole_elements(
                bytes@.len(),
                size_of::<T>(),
            ) ==> r is Ok,
    {
        layout_for_type_is_valid::<T>();
        let size = core::mem::size_of::<T>();
        let align = core::mem::align_of::<T>();
        match check_slice_cast(bytes.len(), start_address(bytes), size, align) {
            Err(error) => Err(error),
            Ok(()) => match view_as_slice::<T>(bytes) {
                Ok(items) => Ok(items),
                Err(_) => Err(MemoryError::InvalidAlignment),
            },
        }
    }

    /// Casts a mutable byte slice to a mutable slice of type T with
    /// validation, under the rule of [`ZeroCopy::cast_slice`]. An error
    /// leaves the buffer as it is.
    pub fn cast_slice_mut<T: Pod>(bytes: &mut [u8]) -> (r: Result<&mut [T], MemoryError>)
        ensures
            r matches Ok(items) ==> items@.len() * size_of::<T>() == old(bytes)@.len(),
            r matches Ok(_) ==> old(bytes)@.len() >= size_of::<T>(),
            r matches Err(error) ==> error == MemoryError::InsufficientSize || error
                == MemoryError::InvalidAlignment,
            old(bytes)@.len() < size_of::<T>() ==> r matches Err(MemoryError::InsufficientSize),
            !whole_elements(old(bytes)@.len(), size_of::<T>()) ==> r is Err,
            align_of::<T>() == 1 && old(bytes)@.len() >= size_of::<T>() && whole_elements(
                old(bytes)@.len(),
                size_of::<T>(),
            ) ==> r is Ok,
            r is Err ==> final(bytes)@ == old(bytes)@,
            final(bytes)@.len() == old(bytes)@.len(),
    {
        layout_for_type_is_valid::<T>();
        let size = core::mem::size_of::<T>();
        let align = core::mem::align_of::<T>();
        match check_slice_cast(bytes.len(), start_address(bytes), size, align) {
            Err(error) => Err(error),
            Ok(()) => match view_as_slice_mut::<T>(bytes) {
                Ok(items) => Ok(items),
                Err(_) => Err(MemoryError::InvalidAlignment),
            },
        }
    }
}

/// Tells whether two byte slices hold the same bytes.
pub fn compare_bytes(a: &[u8], b: &[u8]) -> (r: bool)
    ensures
        r == (a@ == b@),
{
    if a.len() != b.len() {
        return false;
    }
    let mut i: usize = 0;
    while i < a.len()
        invariant
            i <= a@.len(),
            a@.len() == b@.len(),
            a@.subrange(0, i as int) == b@.subrange(0, i as int),
        decreases a@.len() - i,
    {
        if a[i] != b[i] {
            return false;
        }
        assert(a@.subrange(0, i + 1) =~= a@.subrange(0, i as int).push(a@[i as int]));
        assert(b@.subrange(0, i + 1) =~= b@.subrange(0, i as int).push(b@[i as int]));
        i += 1;
    }
    assert(a@ =~= a@.subrange(0, i as int));
    assert(b@ =~= b@.subrange(0, i as int));
    true
}

/// Copies the first `len` bytes of `src` over the first `len` bytes of
/// `dst`.
pub fn copy_bytes(dst: &mut [u8], src: &[u8], len: usize)
    requires
        old(dst)@.len() >= len,
        src@.len() >= len,
    ensures
        final(dst)@ == src@.take(len as int) + old(dst)@.skip(len as int),
{
    let mut i: usize = 0;
    while i < len
        invariant
            i <= len <= src@.len(),
            dst@.len() == old(dst)@.len(),
            len <= dst@.len(),
            dst@ == src@.take(i as int) + old(dst)@.skip(i as int),
        decreases len - i,
    {
        dst[i] = src[i];
        assert(dst@ =~= src@.take(i + 1) + old(dst)@.skip(i + 1));
        i += 1;
    }
}

/// Sets the first `len` bytes of `dst` to `value`.
pub fn set_bytes(dst: &mut [u8], value: u8, len: usize)
    requires
        old(dst)@.len() >= len,
    ensures
        final(dst)@ == Seq::new(len as nat, |i: int| value) + old(dst)@.skip(len as int),
{
    let mut i: usize = 0;
    while i < len
        invariant
            i <= len <= dst@.len(),
            dst@.len() == old(dst)@.len(),
            dst@ == Seq::new(i as nat, |k: int| value) + old(dst)@.skip(i as int),
        decreases len - i,
    {
        dst[i] = value;
        assert(dst@ =~= Seq::new((i + 1) as nat, |k: int| value) + old(dst)@.skip(i + 1));
        i += 1;
    }
}

} // verus!
