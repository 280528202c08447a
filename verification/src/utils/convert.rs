//! Integers to and from little-endian bytes.

use crate::error::PinoError;
use vstd::prelude::*;

verus! {

/// The eight bytes of `value`, least significant first.
pub open spec fn u64_le(value: u64) -> Seq<u8> {
    seq![
        (value & 0xff) as u8,
        ((value >> 8) & 0xff) as u8,
        ((value >> 16) & 0xff) as u8,
        ((value >> 24) & 0xff) as u8,
        ((value >> 32) & 0xff) as u8,
        ((value >> 40) & 0xff) as u8,
        ((value >> 48) & 0xff) as u8,
        ((value >> 56) & 0xff) as u8,
    ]
}

/// The number whose bytes, least significant first, are the first eight of
/// `bytes`.
pub open spec fn u64_of_le(bytes: Seq<u8>) -> u64 {
    (bytes[0] as u64) | (bytes[1] as u64) << 8 | (bytes[2] as u64) << 16 | (bytes[3] as u64) << 24
        | (bytes[4] as u64) << 32 | (bytes[5] as u64) << 40 | (bytes[6] as u64) << 48 | (
    bytes[7] as u64) << 56
}

/// The four bytes of `value`, least significant first.
pub open spec fn u32_le(value: u32) -> Seq<u8> {
    seq![
        (value & 0xff) as u8,
        ((value >> 8) & 0xff) as u8,
        ((value >> 16) & 0xff) as u8,
        ((value >> 24) & 0xff) as u8,
    ]
}

/// The number whose bytes, least significant first, are the first four of
/// `bytes`.
pub open spec fn u32_of_le(bytes: Seq<u8>) -> u32 {
    (bytes[0] as u32) | (bytes[1] as u32) << 8 | (bytes[2] as u32) << 16 | (bytes[3] as u32) << 24
}

/// Reading back the bytes of a 64-bit number gives the number.
pub proof fn lemma_u64_round_trip(value: u64)
    ensures
        u64_of_le(u64_le(value)) == value,
{
    let b = u64_le(value);
    assert(value == ((value & 0xff) as u8 as u64) | (((value >> 8) & 0xff) as u8 as u64) << 8 | (((
    value >> 16) & 0xff) as u8 as u64) << 16 | (((value >> 24) & 0xff) as u8 as u64) << 24 | (((
    value >> 32) & 0xff) as u8 as u64) << 32 | (((value >> 40) & 0xff) as u8 as u64) << 40 | (((
    value >> 48) & 0xff) as u8 as u64) << 48 | (((value >> 56) & 0xff) as u8 as u64) << 56)
        by (bit_vector);
}

/// Reading back the bytes of a 32-bit number gives the number.
pub proof fn lemma_u32_round_trip(value: u32)
    ensures
        u32_of_le(u32_le(value)) == value,
{
    assert(value == ((value & 0xff) as u8 as u32) | (((value >> 8) & 0xff) as u8 as u32) << 8 | (((
    value >> 16) & 0xff) as u8 as u32) << 16 | (((value >> 24) & 0xff) as u8 as u32) << 24)
        by (bit_vector);
}

/// Converts a u64 to bytes in little-endian format.
pub fn u64_to_bytes(value: u64) -> (r: [u8; 8])
    ensures
        r@ == u64_le(value),
{
    let r = [
        (value & 0xff) as u8,
        ((value >> 8) & 0xff) as u8,
        ((value >> 16) & 0xff) as u8,
        ((value >> 24) & 0xff) as u8,
        ((value >> 32) & 0xff) as u8,
        ((value >> 40) & 0xff) as u8,
        ((value >> 48) & 0xff) as u8,
        ((value >> 56) & 0xff) as u8,
    ];
    assert(r@ =~= u64_le(value));
    r
}

/// Converts bytes to u64 in little-endian format: the first eight bytes
/// are read, and fewer than eight are refused.
pub fn bytes_to_u64(bytes: &[u8]) -> (r: Result<u64, PinoError>)
    ensures
        bytes@.len() >= 8 ==> r == Ok::<u64, PinoError>(u64_of_le(bytes@)),
        bytes@.len() < 8 ==> r == Err::<u64, PinoError>(PinoError::InvalidInstructionData),
{
    if bytes.len() < 8 {
        return Err(PinoError::InvalidInstructionData);
    }
    Ok(
        (bytes[0] as u64) | (bytes[1] as u64) << 8 | (bytes[2] as u64) << 16 | (bytes[3] as u64)
            << 24 | (bytes[4] as u64) << 32 | (bytes[5] as u64) << 40 | (bytes[6] as u64) << 48 | (
        bytes[7] as u64) << 56,
    )
}

/// Converts a u32 to bytes in little-endian format.
pub fn u32_to_bytes(value: u32) -> (r: [u8; 4])
    ensures
        r@ == u32_le(value),
{
    let r = [
        (value & 0xff) as u8,
        ((value >> 8) & 0xff) as u8,
        ((value >> 16) & 0xff) as u8,
        ((value >> 24) & 0xff) as u8,
    ];
    assert(r@ =~= u32_le(value));
    r
}

/// Converts bytes to u32 in little-endian format: the first four bytes
/// are read, and fewer than four are refused.
pub fn bytes_to_u32(bytes: &[u8]) -> (r: Result<u32, PinoError>)
    ensures
        bytes@.len() >= 4 ==> r == Ok::<u32, PinoError>(u32_of_le(bytes@)),
        bytes@.len() < 4 ==> r == Err::<u32, PinoError>(PinoError::InvalidInstructionData),
{
    if bytes.len() < 4 {
        return Err(PinoError::InvalidInstructionData);
    }
    Ok((bytes[0] as u32) | (bytes[1] as u32) << 8 | (bytes[2] as u32) << 16 | (bytes[3] as u32) << 24)
}

} // verus!
