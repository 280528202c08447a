use pino::memory::align::{align_down, align_up, alignment_of, is_aligned};
use pino::memory::layout::{
    size_with_trailing_data, split_struct_and_data, split_struct_and_data_mut,
    trailing_data_offset,
};
use pino::memory::{
    check_cast, check_slice_cast, compare_bytes, copy_bytes, set_bytes, MemoryError, ZeroCopy,
};

#[test]
fn cast_of_aligned_eight_bytes_succeeds_and_writes_through() {
    // backing storage of size 8 and alignment 4, seen as bytes
    let mut backing = [0u32; 2];
    let bytes: &mut [u8] = bytemuck::cast_slice_mut(&mut backing);
    assert_eq!(bytes.len(), 8);
    bytes[0] = 0x11;
    {
        let value: &mut [u32; 2] = ZeroCopy::try_cast_mut(bytes).unwrap();
        assert_eq!(value[0].to_ne_bytes()[0], 0x11);
        value[1] = u32::from_ne_bytes([1, 2, 3, 4]);
    }
    assert_eq!(&bytes[4..8], &[1, 2, 3, 4]);
    let seen: &[u32; 2] = ZeroCopy::try_cast_ref(bytes).unwrap();
    assert_eq!(seen[1], u32::from_ne_bytes([1, 2, 3, 4]));
}

#[test]
fn cast_of_three_bytes_is_insufficient() {
    let bytes = [0u8; 3];
    assert_eq!(
        ZeroCopy::try_cast_ref::<[u32; 2]>(&bytes).err(),
        Some(MemoryError::InsufficientSize)
    );
    let mut bytes = [0u8; 3];
    assert_eq!(
        ZeroCopy::try_cast_mut::<[u32; 2]>(&mut bytes).err(),
        Some(MemoryError::InsufficientSize)
    );
    assert_eq!(bytes, [0u8; 3]);
}

#[test]
fn cast_of_misaligned_buffer_is_refused() {
    let backing = [0u32; 4];
    let bytes: &[u8] = bytemuck::cast_slice(&backing);
    assert_eq!(
        ZeroCopy::try_cast_ref::<u32>(&bytes[1..]).err(),
        Some(MemoryError::InvalidAlignment)
    );
    assert!(ZeroCopy::try_cast_ref::<u32>(&bytes[4..]).is_ok());
}

#[test]
fn cast_reads_only_the_front_of_a_longer_buffer() {
    let backing = [7u32, 9u32, 11u32];
    let bytes: &[u8] = bytemuck::cast_slice(&backing);
    let first: &u32 = ZeroCopy::try_cast_ref(bytes).unwrap();
    assert_eq!(*first, 7);
}

#[test]
fn cast_slice_yields_length_over_size() {
    let backing = [1u32, 2, 3];
    let bytes: &[u8] = bytemuck::cast_slice(&backing);
    let items: &[u32] = ZeroCopy::cast_slice(bytes).unwrap();
    assert_eq!(items, &[1, 2, 3]);
    let pairs: &[[u16; 2]] = ZeroCopy::cast_slice(bytes).unwrap();
    assert_eq!(pairs.len(), 3);
}

#[test]
fn cast_slice_refuses_partial_elements_and_short_buffers() {
    let backing = [1u32, 2, 3];
    let bytes: &[u8] = bytemuck::cast_slice(&backing);
    assert_eq!(
        ZeroCopy::cast_slice::<u32>(&bytes[..6]).err(),
        Some(MemoryError::InsufficientSize)
    );
    assert_eq!(
        ZeroCopy::cast_slice::<u32>(&bytes[..2]).err(),
        Some(MemoryError::InsufficientSize)
    );
    assert_eq!(
        ZeroCopy::cast_slice::<u32>(&bytes[..0]).err(),
        Some(MemoryError::InsufficientSize)
    );
    assert_eq!(
        ZeroCopy::cast_slice::<u32>(&bytes[2..10]).err(),
        Some(MemoryError::InvalidAlignment)
    );
}

#[test]
fn cast_slice_mut_writes_through() {
    let mut backing = [0u32; 2];
    let bytes: &mut [u8] = bytemuck::cast_slice_mut(&mut backing);
    {
        let items: &mut [u32] = ZeroCopy::cast_slice_mut(bytes).unwrap();
        assert_eq!(items.len(), 2);
        items[1] = u32::from_ne_bytes([9, 8, 7, 6]);
    }
    assert_eq!(&bytes[4..], &[9, 8, 7, 6]);
    assert_eq!(
        ZeroCopy::cast_slice_mut::<u32>(&mut bytes[..5]).err(),
        Some(MemoryError::InsufficientSize)
    );
}

#[test]
fn check_cast_decides_by_length_then_address() {
    assert_eq!(check_cast(3, 0, 8, 4), Err(MemoryError::InsufficientSize));
    assert_eq!(check_cast(3, 1, 8, 4), Err(MemoryError::InsufficientSize));
    assert_eq!(check_cast(8, 6, 8, 4), Err(MemoryError::InvalidAlignment));
    assert_eq!(check_cast(8, 4, 8, 4), Ok(()));
    assert_eq!(check_cast(100, 4096, 8, 4), Ok(()));
    assert_eq!(check_cast(0, 7, 0, 1), Ok(()));
}

#[test]
fn check_slice_cast_asks_for_whole_elements() {
    assert_eq!(check_slice_cast(16, 8, 8, 4), Ok(()));
    assert_eq!(check_slice_cast(12, 8, 8, 4), Err(MemoryError::InsufficientSize));
    assert_eq!(check_slice_cast(16, 2, 8, 4), Err(MemoryError::InvalidAlignment));
    assert_eq!(check_slice_cast(4, 8, 8, 4), Err(MemoryError::InsufficientSize));
    assert_eq!(check_slice_cast(0, 8, 0, 1), Ok(()));
    assert_eq!(check_slice_cast(3, 8, 0, 1), Err(MemoryError::InsufficientSize));
}

#[test]
fn compare_bytes_is_equality() {
    assert!(compare_bytes(b"abc", b"abc"));
    assert!(!compare_bytes(b"abc", b"abd"));
    assert!(!compare_bytes(b"abc", b"ab"));
    assert!(compare_bytes(b"", b""));
}

#[test]
fn copy_bytes_copies_a_prefix() {
    let mut dst = [9u8; 5];
    copy_bytes(&mut dst, &[1, 2, 3, 4], 3);
    assert_eq!(dst, [1, 2, 3, 9, 9]);
    copy_bytes(&mut dst, &[7], 0);
    assert_eq!(dst, [1, 2, 3, 9, 9]);
}

#[test]
fn set_bytes_fills_a_prefix() {
    let mut dst = [9u8; 4];
    set_bytes(&mut dst, 0xAA, 2);
    assert_eq!(dst, [0xAA, 0xAA, 9, 9]);
    set_bytes(&mut dst, 1, 4);
    assert_eq!(dst, [1, 1, 1, 1]);
}

#[test]
fn trailing_data_layout() {
    assert_eq!(trailing_data_offset::<u64>(), 8);
    assert_eq!(size_with_trailing_data::<u64>(100), 108);
    assert_eq!(size_with_trailing_data::<[u8; 3]>(0), 3);
}

#[test]
fn split_header_and_trailing_data() {
    let backing = [5u32, 0x0403_0201u32.to_le(), 6u32];
    let bytes: &[u8] = bytemuck::cast_slice(&backing);
    let (header, rest) = split_struct_and_data::<u32>(bytes).unwrap();
    assert_eq!(*header, 5);
    assert_eq!(rest.len(), 8);
    assert_eq!(&rest[..4], &[1, 2, 3, 4]);
    assert_eq!(
        split_struct_and_data::<u64>(&bytes[..4]).err(),
        Some(MemoryError::InsufficientSize)
    );
    assert_eq!(
        split_struct_and_data::<u32>(&bytes[1..]).err(),
        Some(MemoryError::InvalidAlignment)
    );
}

#[test]
fn split_header_and_trailing_data_mutably() {
    let mut backing = [5u32, 0, 0];
    let bytes: &mut [u8] = bytemuck::cast_slice_mut(&mut backing);
    {
        let (header, rest) = split_struct_and_data_mut::<u32>(bytes).unwrap();
        *header = 6;
        rest[0] = 0xEE;
    }
    assert_eq!(bytes[4], 0xEE);
    assert_eq!(backing[0], 6);
}

#[test]
fn align_up_rounds_to_next_multiple() {
    assert_eq!(align_up(0, 8), 0);
    assert_eq!(align_up(1, 8), 8);
    assert_eq!(align_up(8, 8), 8);
    assert_eq!(align_up(9, 8), 16);
    assert_eq!(align_up(13, 1), 13);
    assert_eq!(align_up(4095, 4096), 4096);
}

#[test]
fn align_down_rounds_to_previous_multiple() {
    assert_eq!(align_down(0, 8), 0);
    assert_eq!(align_down(7, 8), 0);
    assert_eq!(align_down(8, 8), 8);
    assert_eq!(align_down(15, 8), 8);
    assert_eq!(align_down(usize::MAX, 2), usize::MAX - 1);
}

#[test]
fn is_aligned_tests_multiples() {
    assert!(is_aligned(0, 4));
    assert!(is_aligned(16, 4));
    assert!(!is_aligned(18, 4));
    assert!(is_aligned(17, 1));
}

#[test]
fn alignment_of_matches_the_compiler() {
    assert_eq!(alignment_of::<u8>(), 1);
    assert_eq!(alignment_of::<u32>(), std::mem::align_of::<u32>());
    assert_eq!(alignment_of::<[u16; 3]>(), 2);
}

#[test]
fn cast_ref_and_cast_mut_are_checked_too() {
    let mut backing = [3u32, 4u32];
    let bytes: &mut [u8] = bytemuck::cast_slice_mut(&mut backing);
    assert_eq!(ZeroCopy::cast_ref::<u32>(bytes).map(|v| *v), Ok(3));
    assert_eq!(
        ZeroCopy::cast_ref::<u32>(&bytes[1..]).err(),
        Some(MemoryError::InvalidAlignment)
    );
    assert_eq!(
        ZeroCopy::cast_ref::<u64>(&bytes[..4]).err(),
        Some(MemoryError::InsufficientSize)
    );
    *ZeroCopy::cast_mut::<u32>(bytes).unwrap() = 9;
    assert_eq!(backing[0], 9);
}

#[test]
fn casts_to_types_of_alignment_one_succeed_at_any_address() {
    let backing = [0x0403_0201u32.to_le(), 0x0807_0605u32.to_le()];
    let bytes: &[u8] = bytemuck::cast_slice(&backing);
    for start in 0..4 {
        let part = &bytes[start..];
        assert_eq!(ZeroCopy::try_cast_ref::<u8>(part).map(|v| *v), Ok(part[0]));
        assert_eq!(ZeroCopy::cast_ref::<[u8; 3]>(part).map(|v| *v), Ok([part[0], part[1], part[2]]));
        assert_eq!(ZeroCopy::cast_slice::<[u8; 2]>(&part[..4]).map(|v| v.len()), Ok(2));
        assert!(split_struct_and_data::<[u8; 2]>(part).is_ok());
    }
    let mut bytes = [1u8, 2, 3, 4, 5];
    for start in 0..2 {
        *ZeroCopy::try_cast_mut::<u8>(&mut bytes[start..]).unwrap() = 9;
        assert_eq!(ZeroCopy::cast_slice_mut::<[u8; 2]>(&mut bytes[start..start + 4]).unwrap().len(), 2);
        assert!(split_struct_and_data_mut::<u8>(&mut bytes[start..]).is_ok());
    }
    assert_eq!(bytes, [9, 9, 3, 4, 5]);
    assert_eq!(ZeroCopy::cast_slice::<()>(&[]).map(|v| v.len()), Ok(0));
}
