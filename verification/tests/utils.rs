use pino::context::BumpSeeds;
use pino::error::{require_check, PinoError};
use pino::utils::convert::{bytes_to_u32, bytes_to_u64, u32_to_bytes, u64_to_bytes};
use pino::utils::math::{percentage, proportional, safe_add, safe_div, safe_mul, safe_sub};
use pino::utils::strings::{bytes_equal, find_byte, stack_string};
use pino::utils::time::{current_timestamp, is_before, is_future, is_past};
use pino::utils::validation::{
    validate_ascii, validate_not_default, validate_not_empty, validate_range,
};

#[test]
fn require_check_passes_or_returns_the_error() {
    assert_eq!(require_check(true, PinoError::AccountNotSigner), Ok(()));
    assert_eq!(
        require_check(false, PinoError::AccountNotSigner),
        Err(PinoError::AccountNotSigner)
    );
    assert_eq!(require_check(false, PinoError::Custom(7)), Err(PinoError::Custom(7)));
}

#[test]
fn safe_add_detects_overflow() {
    assert_eq!(safe_add(2, 3), Ok(5));
    assert_eq!(safe_add(u64::MAX, 0), Ok(u64::MAX));
    assert_eq!(safe_add(u64::MAX, 1), Err(PinoError::ArithmeticOverflow));
}

#[test]
fn safe_sub_detects_underflow() {
    assert_eq!(safe_sub(5, 3), Ok(2));
    assert_eq!(safe_sub(3, 3), Ok(0));
    assert_eq!(safe_sub(3, 5), Err(PinoError::ArithmeticOverflow));
}

#[test]
fn safe_mul_detects_overflow() {
    assert_eq!(safe_mul(6, 7), Ok(42));
    assert_eq!(safe_mul(1 << 32, 1 << 31), Ok(1 << 63));
    assert_eq!(safe_mul(1 << 32, 1 << 32), Err(PinoError::ArithmeticOverflow));
}

#[test]
fn safe_div_detects_zero() {
    assert_eq!(safe_div(7, 2), Ok(3));
    assert_eq!(safe_div(0, 2), Ok(0));
    assert_eq!(safe_div(7, 0), Err(PinoError::ArithmeticOverflow));
}

#[test]
fn percentage_scales_and_rounds_down() {
    assert_eq!(percentage(1000, 25, 100), Ok(250));
    assert_eq!(percentage(999, 1, 10), Ok(99));
    assert_eq!(percentage(10, 5, 0), Err(PinoError::ArithmeticOverflow));
    assert_eq!(percentage(u64::MAX, 2, 2), Err(PinoError::ArithmeticOverflow));
}

#[test]
fn proportional_scales_and_rounds_down() {
    assert_eq!(proportional(9, 2, 3), Ok(6));
    assert_eq!(proportional(10, 1, 3), Ok(3));
    assert_eq!(proportional(10, 1, 0), Err(PinoError::ArithmeticOverflow));
    assert_eq!(proportional(u64::MAX, u64::MAX, 1), Err(PinoError::ArithmeticOverflow));
}

#[test]
fn clock_is_unavailable() {
    assert_eq!(current_timestamp(), Err(PinoError::Custom(0x2001)));
    assert_eq!(is_past(0), Err(PinoError::Custom(0x2001)));
    assert_eq!(is_future(i64::MAX), Err(PinoError::Custom(0x2001)));
}

#[test]
fn is_before_compares_timestamps() {
    assert!(is_before(1, 2));
    assert!(!is_before(2, 2));
    assert!(!is_before(3, 2));
    assert!(is_before(i64::MIN, i64::MAX));
}

#[test]
fn stack_string_from_text_that_fits() {
    let s = stack_string::<8>("hello");
    assert_eq!(s.as_str(), "hello");
    let s = stack_string::<5>("hello");
    assert_eq!(s.as_str(), "hello");
}

#[test]
fn stack_string_from_text_that_does_not_fit_is_empty() {
    let s = stack_string::<4>("hello");
    assert_eq!(s.as_str(), "");
    assert!(s.is_empty());
}

#[test]
fn bytes_equal_is_equality() {
    assert!(bytes_equal(b"pino", b"pino"));
    assert!(!bytes_equal(b"pino", b"pine"));
    assert!(!bytes_equal(b"pino", b"pin"));
    assert!(bytes_equal(b"", b""));
}

#[test]
fn find_byte_gives_the_first_occurrence() {
    assert_eq!(find_byte(b"a=b=c", b'='), Some(1));
    assert_eq!(find_byte(b"abc", b'a'), Some(0));
    assert_eq!(find_byte(b"abc", b'z'), None);
    assert_eq!(find_byte(b"", b'z'), None);
}

#[test]
fn validate_not_default_refuses_all_zero() {
    assert_eq!(validate_not_default(&[0u8; 32]), Err(PinoError::InvalidProgramId));
    let mut key = [0u8; 32];
    key[31] = 1;
    assert_eq!(validate_not_default(&key), Ok(()));
    assert_eq!(validate_not_default(&[0xFF; 32]), Ok(()));
}

#[test]
fn validate_range_includes_both_ends() {
    assert_eq!(validate_range(5, 5, 10), Ok(()));
    assert_eq!(validate_range(10, 5, 10), Ok(()));
    assert_eq!(validate_range(4, 5, 10), Err(PinoError::Custom(0x2002)));
    assert_eq!(validate_range(11, 5, 10), Err(PinoError::Custom(0x2002)));
    assert_eq!(validate_range(7, 10, 5), Err(PinoError::Custom(0x2002)));
}

#[test]
fn validate_not_empty_refuses_empty() {
    assert_eq!(validate_not_empty(&[1u8]), Ok(()));
    assert_eq!(validate_not_empty::<u64>(&[]), Err(PinoError::Custom(0x2003)));
}

#[test]
fn validate_ascii_refuses_high_bytes() {
    assert_eq!(validate_ascii(b"plain text\x7f"), Ok(()));
    assert_eq!(validate_ascii(b""), Ok(()));
    assert_eq!(validate_ascii(&[b'a', 0x80]), Err(PinoError::Custom(0x2004)));
    assert_eq!(validate_ascii("é".as_bytes()), Err(PinoError::Custom(0x2004)));
}

#[test]
fn u64_bytes_are_little_endian() {
    assert_eq!(u64_to_bytes(0x0102030405060708), [8, 7, 6, 5, 4, 3, 2, 1]);
    assert_eq!(u64_to_bytes(1), [1, 0, 0, 0, 0, 0, 0, 0]);
    assert_eq!(u64_to_bytes(u64::MAX), [0xFF; 8]);
    assert_eq!(u64_to_bytes(0xDEADBEEF), 0xDEADBEEFu64.to_le_bytes());
}

#[test]
fn u64_from_bytes_reads_the_first_eight() {
    assert_eq!(bytes_to_u64(&[8, 7, 6, 5, 4, 3, 2, 1]), Ok(0x0102030405060708));
    assert_eq!(bytes_to_u64(&[1, 0, 0, 0, 0, 0, 0, 0, 0xFF, 0xFF]), Ok(1));
    assert_eq!(bytes_to_u64(&[1, 2, 3, 4, 5, 6, 7]), Err(PinoError::InvalidInstructionData));
    assert_eq!(bytes_to_u64(&[]), Err(PinoError::InvalidInstructionData));
}

#[test]
fn u64_round_trip() {
    for value in [0u64, 1, 255, 256, 0x8000_0000_0000_0000, u64::MAX, 0x0123_4567_89AB_CDEF] {
        assert_eq!(bytes_to_u64(&u64_to_bytes(value)), Ok(value));
    }
}

#[test]
fn u32_bytes_are_little_endian() {
    assert_eq!(u32_to_bytes(0x01020304), [4, 3, 2, 1]);
    assert_eq!(u32_to_bytes(2), [2, 0, 0, 0]);
    assert_eq!(u32_to_bytes(0xCAFEBABE), 0xCAFEBABEu32.to_le_bytes());
}

#[test]
fn u32_from_bytes_reads_the_first_four() {
    assert_eq!(bytes_to_u32(&[4, 3, 2, 1]), Ok(0x01020304));
    assert_eq!(bytes_to_u32(&[4, 3, 2, 1, 9]), Ok(0x01020304));
    assert_eq!(bytes_to_u32(&[4, 3, 2]), Err(PinoError::InvalidInstructionData));
    for value in [0u32, 1, 0x8000_0000, u32::MAX] {
        assert_eq!(bytes_to_u32(&u32_to_bytes(value)), Ok(value));
    }
}

#[test]
fn bump_seeds_record_in_order() {
    let mut seeds = BumpSeeds::new();
    assert!(seeds.is_empty());
    assert_eq!(seeds.add(255), Ok(0));
    assert_eq!(seeds.add(254), Ok(1));
    assert_eq!(seeds.len(), 2);
    assert_eq!(seeds.get(0), Some(255));
    assert_eq!(seeds.get(1), Some(254));
    assert_eq!(seeds.get(2), None);
    assert_eq!(seeds.get(16), None);
}

#[test]
fn bump_seeds_hold_sixteen() {
    let mut seeds = BumpSeeds::default();
    for i in 0..16u8 {
        assert_eq!(seeds.add(i), Ok(i as usize));
    }
    assert_eq!(seeds.add(99), Err(PinoError::Custom(0x1001)));
    assert_eq!(seeds.len(), 16);
    assert_eq!(seeds.get(15), Some(15));
}
