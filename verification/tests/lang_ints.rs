//! Exact value-preserving conversions between the integer types: the
//! identity values of every pair, the first value past each bound with its
//! error, and the type extremes.

use conv2::{NegOverflow, PosOverflow, RangeError, ValueInto};

#[test]
fn test_i8() {
    let dst: Result<i8, _> = (-1i8).value_into();
    assert_eq!(dst, Ok(-1i8));
    let dst: Result<i8, _> = (0i8).value_into();
    assert_eq!(dst, Ok(0i8));
    let dst: Result<i8, _> = (1i8).value_into();
    assert_eq!(dst, Ok(1i8));
    let dst: Result<i8, _> = (i8::MIN).value_into();
    assert_eq!(dst, Ok((i8::MIN) as i8));
    let dst: Result<i8, _> = (i8::MAX).value_into();
    assert_eq!(dst, Ok((i8::MAX) as i8));
    let dst: Result<i16, _> = (-1i8).value_into();
    assert_eq!(dst, Ok(-1i16));
    let dst: Result<i16, _> = (0i8).value_into();
    assert_eq!(dst, Ok(0i16));
    let dst: Result<i16, _> = (1i8).value_into();
    assert_eq!(dst, Ok(1i16));
    let dst: Result<i16, _> = (i8::MIN).value_into();
    assert_eq!(dst, Ok((i8::MIN) as i16));
    let dst: Result<i16, _> = (i8::MAX).value_into();
    assert_eq!(dst, Ok((i8::MAX) as i16));
    let dst: Result<i32, _> = (-1i8).value_into();
    assert_eq!(dst, Ok(-1i32));
    let dst: Result<i32, _> = (0i8).value_into();
    assert_eq!(dst, Ok(0i32));
    let dst: Result<i32, _> = (1i8).value_into();
    assert_eq!(dst, Ok(1i32));
    let dst: Result<i32, _> = (i8::MIN).value_into();
    assert_eq!(dst, Ok((i8::MIN) as i32));
    let dst: Result<i32, _> = (i8::MAX).value_into();
    assert_eq!(dst, Ok((i8::MAX) as i32));
    let dst: Result<i64, _> = (-1i8).value_into();
    assert_eq!(dst, Ok(-1i64));
    let dst: Result<i64, _> = (0i8).value_into();
    assert_eq!(dst, Ok(0i64));
    let dst: Result<i64, _> = (1i8).value_into();
    assert_eq!(dst, Ok(1i64));
    let dst: Result<i64, _> = (i8::MIN).value_into();
    assert_eq!(dst, Ok((i8::MIN) as i64));
    let dst: Result<i64, _> = (i8::MAX).value_into();
    assert_eq!(dst, Ok((i8::MAX) as i64));
    let dst: Result<isize, _> = (-1i8).value_into();
    assert_eq!(dst, Ok(-1isize));
    let dst: Result<isize, _> = (0i8).value_into();
    assert_eq!(dst, Ok(0isize));
    let dst: Result<isize, _> = (1i8).value_into();
    assert_eq!(dst, Ok(1isize));
    let dst: Result<isize, _> = (i8::MIN).value_into();
    assert_eq!(dst, Ok((i8::MIN) as isize));
    let dst: Result<isize, _> = (i8::MAX).value_into();
    assert_eq!(dst, Ok((i8::MAX) as isize));
    let dst: Result<u8, _> = (0i8).value_into();
    assert_eq!(dst, Ok(0u8));
    let dst: Result<u8, _> = (1i8).value_into();
    assert_eq!(dst, Ok(1u8));
    let dst: Result<u8, _> = (-1i8).value_into();
    assert_eq!(dst, Err(NegOverflow(-1)));
    let dst: Result<u8, _> = (i8::MAX).value_into();
    assert_eq!(dst, Ok((i8::MAX) as u8));
    let dst: Result<u16, _> = (0i8).value_into();
    assert_eq!(dst, Ok(0u16));
    let dst: Result<u16, _> = (1i8).value_into();
    assert_eq!(dst, Ok(1u16));
    let dst: Result<u16, _> = (-1i8).value_into();
    assert_eq!(dst, Err(NegOverflow(-1)));
    let dst: Result<u16, _> = (i8::MAX).value_into();
    assert_eq!(dst, Ok((i8::MAX) as u16));
    let dst: Result<u32, _> = (0i8).value_into();
    assert_eq!(dst, Ok(0u32));
    let dst: Result<u32, _> = (1i8).value_into();
    assert_eq!(dst, Ok(1u32));
    let dst: Result<u32, _> = (-1i8).value_into();
    assert_eq!(dst, Err(NegOverflow(-1)));
    let dst: Result<u32, _> = (i8::MAX).value_into();
    assert_eq!(dst, Ok((i8::MAX) as u32));
    let dst: Result<u64, _> = (0i8).value_into();
    assert_eq!(dst, Ok(0u64));
    let dst: Result<u64, _> = (1i8).value_into();
    assert_eq!(dst, Ok(1u64));
    let dst: Result<u64, _> = (-1i8).value_into();
    assert_eq!(dst, Err(NegOverflow(-1)));
    let dst: Result<u64, _> = (i8::MAX).value_into();
    assert_eq!(dst, Ok((i8::MAX) as u64));
    let dst: Result<usize, _> = (0i8).value_into();
    assert_eq!(dst, Ok(0usize));
    let dst: Result<usize, _> = (1i8).value_into();
    assert_eq!(dst, Ok(1usize));
    let dst: Result<usize, _> = (-1i8).value_into();
    assert_eq!(dst, Err(NegOverflow(-1)));
    let dst: Result<usize, _> = (i8::MAX).value_into();
    assert_eq!(dst, Ok((i8::MAX) as usize));
}

#[test]
fn test_i16() {
    let dst: Result<i8, _> = (-1i16).value_into();
    assert_eq!(dst, Ok(-1i8));
    let dst: Result<i8, _> = (0i16).value_into();
    assert_eq!(dst, Ok(0i8));
    let dst: Result<i8, _> = (1i16).value_into();
    assert_eq!(dst, Ok(1i8));
    let dst: Result<i8, _> = (-129i16).value_into();
    assert_eq!(dst, Err(RangeError::NegOverflow(-129)));
    let dst: Result<i8, _> = (128i16).value_into();
    assert_eq!(dst, Err(RangeError::PosOverflow(128)));
    let dst: Result<i8, _> = (-128i16).value_into();
    assert_eq!(dst, Ok((-128i16) as i8));
    let dst: Result<i8, _> = (127i16).value_into();
    assert_eq!(dst, Ok((127i16) as i8));
    let dst: Result<i16, _> = (-1i16).value_into();
    assert_eq!(dst, Ok(-1i16));
    let dst: Result<i16, _> = (0i16).value_into();
    assert_eq!(dst, Ok(0i16));
    let dst: Result<i16, _> = (1i16).value_into();
    assert_eq!(dst, Ok(1i16));
    let dst: Result<i16, _> = (i16::MIN).value_into();
    assert_eq!(dst, Ok((i16::MIN) as i16));
    let dst: Result<i16, _> = (i16::MAX).value_into();
    assert_eq!(dst, Ok((i16::MAX) as i16));
    let dst: Result<i32, _> = (-1i16).value_into();
    assert_eq!(dst, Ok(-1i32));
    let dst: Result<i32, _> = (0i16).value_into();
    assert_eq!(dst, Ok(0i32));
    let dst: Result<i32, _> = (1i16).value_into();
    assert_eq!(dst, Ok(1i32));
    let dst: Result<i32, _> = (i16::MIN).value_into();
    assert_eq!(dst, Ok((i16::MIN) as i32));
    let dst: Result<i32, _> = (i16::MAX).value_into();
    assert_eq!(dst, Ok((i16::MAX) as i32));
    let dst: Result<i64, _> = (-1i16).value_into();
    assert_eq!(dst, Ok(-1i64));
    let dst: Result<i64, _> = (0i16).value_into();
    assert_eq!(dst, Ok(0i64));
    let dst: Result<i64, _> = (1i16).value_into();
    assert_eq!(dst, Ok(1i64));
    let dst: Result<i64, _> = (i16::MIN).value_into();
    assert_eq!(dst, Ok((i16::MIN) as i64));
    let dst: Result<i64, _> = (i16::MAX).value_into();
    assert_eq!(dst, Ok((i16::MAX) as i64));
    let dst: Result<isize, _> = (-1i16).value_into();
    assert_eq!(dst, Ok(-1isize));
    let dst: Result<isize, _> = (0i16).value_into();
    assert_eq!(dst, Ok(0isize));
    let dst: Result<isize, _> = (1i16).value_into();
    assert_eq!(dst, Ok(1isize));
    let dst: Result<isize, _> = (i16::MIN).value_into();
    assert_eq!(dst, Ok((i16::MIN) as isize));
    let dst: Result<isize, _> = (i16::MAX).value_into();
    assert_eq!(dst, Ok((i16::MAX) as isize));
    let dst: Result<u8, _> = (0i16).value_into();
    assert_eq!(dst, Ok(0u8));
    let dst: Result<u8, _> = (1i16).value_into();
    assert_eq!(dst, Ok(1u8));
    let dst: Result<u8, _> = (-1i16).value_into();
    assert_eq!(dst, Err(RangeError::NegOverflow(-1)));
    let dst: Result<u8, _> = (256i16).value_into();
    assert_eq!(dst, Err(RangeError::PosOverflow(256)));
    let dst: Result<u8, _> = (255i16).value_into();
    assert_eq!(dst, Ok((255i16) as u8));
    let dst: Result<u16, _> = (0i16).value_into();
    assert_eq!(dst, Ok(0u16));
    let dst: Result<u16, _> = (1i16).value_into();
    assert_eq!(dst, Ok(1u16));
    let dst: Result<u16, _> = (-1i16).value_into();
    assert_eq!(dst, Err(NegOverflow(-1)));
    let dst: Result<u16, _> = (i16::MAX).value_into();
    assert_eq!(dst, Ok((i16::MAX) as u16));
    let dst: Result<u32, _> = (0i16).value_into();
    assert_eq!(dst, Ok(0u32));
    let dst: Result<u32, _> = (1i16).value_into();
    assert_eq!(dst, Ok(1u32));
    let dst: Result<u32, _> = (-1i16).value_into();
    assert_eq!(dst, Err(NegOverflow(-1)));
    let dst: Result<u32, _> = (i16::MAX).value_into();
    assert_eq!(dst, Ok((i16::MAX) as u32));
    let dst: Result<u64, _> = (0i16).value_into();
    assert_eq!(dst, Ok(0u64));
    let dst: Result<u64, _> = (1i16).value_into();
    assert_eq!(dst, Ok(1u64));
    let dst: Result<u64, _> = (-1i16).value_into();
    assert_eq!(dst, Err(NegOverflow(-1)));
    let dst: Result<u64, _> = (i16::MAX).value_into();
    assert_eq!(dst, Ok((i16::MAX) as u64));
    let dst: Result<usize, _> = (0i16).value_into();
    assert_eq!(dst, Ok(0usize));
    let dst: Result<usize, _> = (1i16).value_into();
    assert_eq!(dst, Ok(1usize));
    let dst: Result<usize, _> = (-1i16).value_into();
    assert_eq!(dst, Err(NegOverflow(-1)));
    let dst: Result<usize, _> = (i16::MAX).value_into();
    assert_eq!(dst, Ok((i16::MAX) as usize));
}

#[test]
fn test_i32() {
    let dst: Result<i8, _> = (-1i32).value_into();
    assert_eq!(dst, Ok(-1i8));
    let dst: Result<i8, _> = (0i32).value_into();
    assert_eq!(dst, Ok(0i8));
    let dst: Result<i8, _> = (1i32).value_into();
    assert_eq!(dst, Ok(1i8));
    let dst: Result<i8, _> = (-129i32).value_into();
    assert_eq!(dst, Err(RangeError::NegOverflow(-129)));
    let dst: Result<i8, _> = (128i32).value_into();
    assert_eq!(dst, Err(RangeError::PosOverflow(128)));
    let dst: Result<i16, _> = (-1i32).value_into();
    assert_eq!(dst, Ok(-1i16));
    let dst: Result<i16, _> = (0i32).value_into();
    assert_eq!(dst, Ok(0i16));
    let dst: Result<i16, _> = (1i32).value_into();
    assert_eq!(dst, Ok(1i16));
    let dst: Result<i16, _> = (-32_769i32).value_into();
    assert_eq!(dst, Err(RangeError::NegOverflow(-32_769)));
    let dst: Result<i16, _> = (32_768i32).value_into();
    assert_eq!(dst, Err(RangeError::PosOverflow(32_768)));
    let dst: Result<i32, _> = (-1i32).value_into();
    assert_eq!(dst, Ok(-1i32));
    let dst: Result<i32, _> = (0i32).value_into();
    assert_eq!(dst, Ok(0i32));
    let dst: Result<i32, _> = (1i32).value_into();
    assert_eq!(dst, Ok(1i32));
    let dst: Result<i32, _> = (i32::MIN).value_into();
    assert_eq!(dst, Ok((i32::MIN) as i32));
    let dst: Result<i32, _> = (i32::MAX).value_into();
    assert_eq!(dst, Ok((i32::MAX) as i32));
    let dst: Result<i64, _> = (-1i32).value_into();
    assert_eq!(dst, Ok(-1i64));
    let dst: Result<i64, _> = (0i32).value_into();
    assert_eq!(dst, Ok(0i64));
    let dst: Result<i64, _> = (1i32).value_into();
    assert_eq!(dst, Ok(1i64));
    let dst: Result<i64, _> = (i32::MIN).value_into();
    assert_eq!(dst, Ok((i32::MIN) as i64));
    let dst: Result<i64, _> = (i32::MAX).value_into();
    assert_eq!(dst, Ok((i32::MAX) as i64));
    let dst: Result<isize, _> = (-1i32).value_into();
    assert_eq!(dst, Ok(-1isize));
    let dst: Result<isize, _> = (0i32).value_into();
    assert_eq!(dst, Ok(0isize));
    let dst: Result<isize, _> = (1i32).value_into();
    assert_eq!(dst, Ok(1isize));
    let dst: Result<isize, _> = (i32::MIN).value_into();
    assert_eq!(dst, Ok((i32::MIN) as isize));
    let dst: Result<isize, _> = (i32::MAX).value_into();
    assert_eq!(dst, Ok((i32::MAX) as isize));
    let dst: Result<u8, _> = (0i32).value_into();
    assert_eq!(dst, Ok(0u8));
    let dst: Result<u8, _> = (1i32).value_into();
    assert_eq!(dst, Ok(1u8));
    let dst: Result<u8, _> = (-1i32).value_into();
    assert_eq!(dst, Err(RangeError::NegOverflow(-1)));
    let dst: Result<u8, _> = (256i32).value_into();
    assert_eq!(dst, Err(RangeError::PosOverflow(256)));
    let dst: Result<u16, _> = (0i32).value_into();
    assert_eq!(dst, Ok(0u16));
    let dst: Result<u16, _> = (1i32).value_into();
    assert_eq!(dst, Ok(1u16));
    let dst: Result<u16, _> = (-1i32).value_into();
    assert_eq!(dst, Err(RangeError::NegOverflow(-1)));
    let dst: Result<u16, _> = (65_536i32).value_into();
    assert_eq!(dst, Err(RangeError::PosOverflow(65_536)));
    let dst: Result<u32, _> = (0i32).value_into();
    assert_eq!(dst, Ok(0u32));
    let dst: Result<u32, _> = (1i32).value_into();
    assert_eq!(dst, Ok(1u32));
    let dst: Result<u32, _> = (-1i32).value_into();
    assert_eq!(dst, Err(NegOverflow(-1)));
    let dst: Result<u32, _> = (i32::MAX).value_into();
    assert_eq!(dst, Ok((i32::MAX) as u32));
    let dst: Result<u64, _> = (0i32).value_into();
    assert_eq!(dst, Ok(0u64));
    let dst: Result<u64, _> = (1i32).value_into();
    assert_eq!(dst, Ok(1u64));
    let dst: Result<u64, _> = (-1i32).value_into();
    assert_eq!(dst, Err(NegOverflow(-1)));
    let dst: Result<u64, _> = (i32::MAX).value_into();
    assert_eq!(dst, Ok((i32::MAX) as u64));
    let dst: Result<usize, _> = (0i32).value_into();
    assert_eq!(dst, Ok(0usize));
    let dst: Result<usize, _> = (1i32).value_into();
    assert_eq!(dst, Ok(1usize));
    let dst: Result<usize, _> = (-1i32).value_into();
    assert_eq!(dst, Err(NegOverflow(-1)));
    let dst: Result<usize, _> = (i32::MAX).value_into();
    assert_eq!(dst, Ok((i32::MAX) as usize));
}

#[test]
fn test_i64() {
    let dst: Result<i8, _> = (-1i64).value_into();
    assert_eq!(dst, Ok(-1i8));
    let dst: Result<i8, _> = (0i64).value_into();
    assert_eq!(dst, Ok(0i8));
    let dst: Result<i8, _> = (1i64).value_into();
    assert_eq!(dst, Ok(1i8));
    let dst: Result<i8, _> = (-129i64).value_into();
    assert_eq!(dst, Err(RangeError::NegOverflow(-129)));
    let dst: Result<i8, _> = (128i64).value_into();
    assert_eq!(dst, Err(RangeError::PosOverflow(128)));
    let dst: Result<i16, _> = (-1i64).value_into();
    assert_eq!(dst, Ok(-1i16));
    let dst: Result<i16, _> = (0i64).value_into();
    assert_eq!(dst, Ok(0i16));
    let dst: Result<i16, _> = (1i64).value_into();
    assert_eq!(dst, Ok(1i16));
    let dst: Result<i16, _> = (-32_769i64).value_into();
    assert_eq!(dst, Err(RangeError::NegOverflow(-32_769)));
    let dst: Result<i16, _> = (32_768i64).value_into();
    assert_eq!(dst, Err(RangeError::PosOverflow(32_768)));
    let dst: Result<i32, _> = (-1i64).value_into();
    assert_eq!(dst, Ok(-1i32));
    let dst: Result<i32, _> = (0i64).value_into();
    assert_eq!(dst, Ok(0i32));
    let dst: Result<i32, _> = (1i64).value_into();
    assert_eq!(dst, Ok(1i32));
    let dst: Result<i32, _> = (-2_147_483_649i64).value_into();
    assert_eq!(dst, Err(RangeError::NegOverflow(-2_147_483_649)));
    let dst: Result<i32, _> = (2_147_483_648i64).value_into();
    assert_eq!(dst, Err(RangeError::PosOverflow(2_147_483_648)));
    let dst: Result<i64, _> = (-1i64).value_into();
    assert_eq!(dst, Ok(-1i64));
    let dst: Result<i64, _> = (0i64).value_into();
    assert_eq!(dst, Ok(0i64));
    let dst: Result<i64, _> = (1i64).value_into();
    assert_eq!(dst, Ok(1i64));
    let dst: Result<i64, _> = (i64::MIN).value_into();
    assert_eq!(dst, Ok((i64::MIN) as i64));
    let dst: Result<i64, _> = (i64::MAX).value_into();
    assert_eq!(dst, Ok((i64::MAX) as i64));
    let dst: Result<u8, _> = (0i64).value_into();
    assert_eq!(dst, Ok(0u8));
    let dst: Result<u8, _> = (1i64).value_into();
    assert_eq!(dst, Ok(1u8));
    let dst: Result<u8, _> = (-1i64).value_into();
    assert_eq!(dst, Err(RangeError::NegOverflow(-1)));
    let dst: Result<u16, _> = (0i64).value_into();
    assert_eq!(dst, Ok(0u16));
    let dst: Result<u16, _> = (1i64).value_into();
    assert_eq!(dst, Ok(1u16));
    let dst: Result<u16, _> = (-1i64).value_into();
    assert_eq!(dst, Err(RangeError::NegOverflow(-1)));
    let dst: Result<u32, _> = (0i64).value_into();
    assert_eq!(dst, Ok(0u32));
    let dst: Result<u32, _> = (1i64).value_into();
    assert_eq!(dst, Ok(1u32));
    let dst: Result<u32, _> = (-1i64).value_into();
    assert_eq!(dst, Err(RangeError::NegOverflow(-1)));
    let dst: Result<u32, _> = (4_294_967_296i64).value_into();
    assert_eq!(dst, Err(RangeError::PosOverflow(4_294_967_296)));
    let dst: Result<u64, _> = (0i64).value_into();
    assert_eq!(dst, Ok(0u64));
    let dst: Result<u64, _> = (1i64).value_into();
    assert_eq!(dst, Ok(1u64));
    let dst: Result<u64, _> = (-1i64).value_into();
    assert_eq!(dst, Err(NegOverflow(-1)));
    let dst: Result<u64, _> = (i64::MAX).value_into();
    assert_eq!(dst, Ok((i64::MAX) as u64));
    let dst: Result<isize, _> = (-1i64).value_into();
    assert_eq!(dst, Ok(-1isize));
    let dst: Result<isize, _> = (0i64).value_into();
    assert_eq!(dst, Ok(0isize));
    let dst: Result<isize, _> = (1i64).value_into();
    assert_eq!(dst, Ok(1isize));
    if usize::BITS == 64 {
        let dst: Result<isize, _> = (2_147_483_648i64).value_into();
        assert_eq!(dst, Ok(2_147_483_648isize));
        let dst: Result<usize, _> = (4_294_967_296i64).value_into();
        assert_eq!(dst, Ok(4_294_967_296usize));
    } else {
        let dst: Result<isize, _> = (2_147_483_648i64).value_into();
        assert_eq!(dst, Err(RangeError::PosOverflow(2_147_483_648)));
        let dst: Result<usize, _> = (4_294_967_296i64).value_into();
        assert_eq!(dst, Err(RangeError::PosOverflow(4_294_967_296)));
    }
    let dst: Result<usize, _> = (0i64).value_into();
    assert_eq!(dst, Ok(0usize));
    let dst: Result<usize, _> = (1i64).value_into();
    assert_eq!(dst, Ok(1usize));
    let dst: Result<usize, _> = (-1i64).value_into();
    assert_eq!(dst, Err(RangeError::NegOverflow(-1)));
}

#[test]
fn test_u8() {
    let dst: Result<i8, _> = (0u8).value_into();
    assert_eq!(dst, Ok(0i8));
    let dst: Result<i8, _> = (1u8).value_into();
    assert_eq!(dst, Ok(1i8));
    let dst: Result<i8, _> = (127u8).value_into();
    assert_eq!(dst, Ok(127i8));
    let dst: Result<i8, _> = (128u8).value_into();
    assert_eq!(dst, Err(PosOverflow(128)));
    let dst: Result<i16, _> = (0u8).value_into();
    assert_eq!(dst, Ok(0i16));
    let dst: Result<i16, _> = (1u8).value_into();
    assert_eq!(dst, Ok(1i16));
    let dst: Result<i16, _> = (u8::MAX).value_into();
    assert_eq!(dst, Ok((u8::MAX) as i16));
    let dst: Result<i32, _> = (0u8).value_into();
    assert_eq!(dst, Ok(0i32));
    let dst: Result<i32, _> = (1u8).value_into();
    assert_eq!(dst, Ok(1i32));
    let dst: Result<i32, _> = (u8::MAX).value_into();
    assert_eq!(dst, Ok((u8::MAX) as i32));
    let dst: Result<i64, _> = (0u8).value_into();
    assert_eq!(dst, Ok(0i64));
    let dst: Result<i64, _> = (1u8).value_into();
    assert_eq!(dst, Ok(1i64));
    let dst: Result<i64, _> = (u8::MAX).value_into();
    assert_eq!(dst, Ok((u8::MAX) as i64));
    let dst: Result<isize, _> = (0u8).value_into();
    assert_eq!(dst, Ok(0isize));
    let dst: Result<isize, _> = (1u8).value_into();
    assert_eq!(dst, Ok(1isize));
    let dst: Result<isize, _> = (u8::MAX).value_into();
    assert_eq!(dst, Ok((u8::MAX) as isize));
    let dst: Result<u8, _> = (0u8).value_into();
    assert_eq!(dst, Ok(0u8));
    let dst: Result<u8, _> = (1u8).value_into();
    assert_eq!(dst, Ok(1u8));
    let dst: Result<u8, _> = (u8::MAX).value_into();
    assert_eq!(dst, Ok((u8::MAX) as u8));
    let dst: Result<u16, _> = (0u8).value_into();
    assert_eq!(dst, Ok(0u16));
    let dst: Result<u16, _> = (1u8).value_into();
    assert_eq!(dst, Ok(1u16));
    let dst: Result<u16, _> = (u8::MAX).value_into();
    assert_eq!(dst, Ok((u8::MAX) as u16));
    let dst: Result<u32, _> = (0u8).value_into();
    assert_eq!(dst, Ok(0u32));
    let dst: Result<u32, _> = (1u8).value_into();
    assert_eq!(dst, Ok(1u32));
    let dst: Result<u32, _> = (u8::MAX).value_into();
    assert_eq!(dst, Ok((u8::MAX) as u32));
    let dst: Result<u64, _> = (0u8).value_into();
    assert_eq!(dst, Ok(0u64));
    let dst: Result<u64, _> = (1u8).value_into();
    assert_eq!(dst, Ok(1u64));
    let dst: Result<u64, _> = (u8::MAX).value_into();
    assert_eq!(dst, Ok((u8::MAX) as u64));
    let dst: Result<usize, _> = (0u8).value_into();
    assert_eq!(dst, Ok(0usize));
    let dst: Result<usize, _> = (1u8).value_into();
    assert_eq!(dst, Ok(1usize));
    let dst: Result<usize, _> = (u8::MAX).value_into();
    assert_eq!(dst, Ok((u8::MAX) as usize));
}

#[test]
fn test_u16() {
    let dst: Result<i8, _> = (0u16).value_into();
    assert_eq!(dst, Ok(0i8));
    let dst: Result<i8, _> = (1u16).value_into();
    assert_eq!(dst, Ok(1i8));
    let dst: Result<i8, _> = (128u16).value_into();
    assert_eq!(dst, Err(PosOverflow(128)));
    let dst: Result<i16, _> = (0u16).value_into();
    assert_eq!(dst, Ok(0i16));
    let dst: Result<i16, _> = (1u16).value_into();
    assert_eq!(dst, Ok(1i16));
    let dst: Result<i16, _> = (32_768u16).value_into();
    assert_eq!(dst, Err(PosOverflow(32_768)));
    let dst: Result<i32, _> = (0u16).value_into();
    assert_eq!(dst, Ok(0i32));
    let dst: Result<i32, _> = (1u16).value_into();
    assert_eq!(dst, Ok(1i32));
    let dst: Result<i32, _> = (u16::MAX).value_into();
    assert_eq!(dst, Ok((u16::MAX) as i32));
    let dst: Result<i64, _> = (0u16).value_into();
    assert_eq!(dst, Ok(0i64));
    let dst: Result<i64, _> = (1u16).value_into();
    assert_eq!(dst, Ok(1i64));
    let dst: Result<i64, _> = (u16::MAX).value_into();
    assert_eq!(dst, Ok((u16::MAX) as i64));
    let dst: Result<isize, _> = (0u16).value_into();
    assert_eq!(dst, Ok(0isize));
    let dst: Result<isize, _> = (1u16).value_into();
    assert_eq!(dst, Ok(1isize));
    let dst: Result<isize, _> = (u16::MAX).value_into();
    assert_eq!(dst, Ok((u16::MAX) as isize));
    let dst: Result<u16, _> = (0u16).value_into();
    assert_eq!(dst, Ok(0u16));
    let dst: Result<u16, _> = (1u16).value_into();
    assert_eq!(dst, Ok(1u16));
    let dst: Result<u16, _> = (u16::MAX).value_into();
    assert_eq!(dst, Ok((u16::MAX) as u16));
    let dst: Result<u32, _> = (0u16).value_into();
    assert_eq!(dst, Ok(0u32));
    let dst: Result<u32, _> = (1u16).value_into();
    assert_eq!(dst, Ok(1u32));
    let dst: Result<u32, _> = (u16::MAX).value_into();
    assert_eq!(dst, Ok((u16::MAX) as u32));
    let dst: Result<u64, _> = (0u16).value_into();
    assert_eq!(dst, Ok(0u64));
    let dst: Result<u64, _> = (1u16).value_into();
    assert_eq!(dst, Ok(1u64));
    let dst: Result<u64, _> = (u16::MAX).value_into();
    assert_eq!(dst, Ok((u16::MAX) as u64));
    let dst: Result<usize, _> = (0u16).value_into();
    assert_eq!(dst, Ok(0usize));
    let dst: Result<usize, _> = (1u16).value_into();
    assert_eq!(dst, Ok(1usize));
    let dst: Result<usize, _> = (u16::MAX).value_into();
    assert_eq!(dst, Ok((u16::MAX) as usize));
    let dst: Result<u8, _> = (0u16).value_into();
    assert_eq!(dst, Ok(0u8));
    let dst: Result<u8, _> = (1u16).value_into();
    assert_eq!(dst, Ok(1u8));
    let dst: Result<u8, _> = (256u16).value_into();
    assert_eq!(dst, Err(PosOverflow(256)));
}

#[test]
fn test_u32() {
    let dst: Result<i8, _> = (0u32).value_into();
    assert_eq!(dst, Ok(0i8));
    let dst: Result<i8, _> = (1u32).value_into();
    assert_eq!(dst, Ok(1i8));
    let dst: Result<i8, _> = (128u32).value_into();
    assert_eq!(dst, Err(PosOverflow(128)));
    let dst: Result<i16, _> = (0u32).value_into();
    assert_eq!(dst, Ok(0i16));
    let dst: Result<i16, _> = (1u32).value_into();
    assert_eq!(dst, Ok(1i16));
    let dst: Result<i16, _> = (32_768u32).value_into();
    assert_eq!(dst, Err(PosOverflow(32_768)));
    let dst: Result<i32, _> = (0u32).value_into();
    assert_eq!(dst, Ok(0i32));
    let dst: Result<i32, _> = (1u32).value_into();
    assert_eq!(dst, Ok(1i32));
    let dst: Result<i32, _> = (2_147_483_648u32).value_into();
    assert_eq!(dst, Err(PosOverflow(2_147_483_648)));
    let dst: Result<i64, _> = (0u32).value_into();
    assert_eq!(dst, Ok(0i64));
    let dst: Result<i64, _> = (1u32).value_into();
    assert_eq!(dst, Ok(1i64));
    let dst: Result<i64, _> = (u32::MAX).value_into();
    assert_eq!(dst, Ok((u32::MAX) as i64));
    let dst: Result<u32, _> = (0u32).value_into();
    assert_eq!(dst, Ok(0u32));
    let dst: Result<u32, _> = (1u32).value_into();
    assert_eq!(dst, Ok(1u32));
    let dst: Result<u32, _> = (u32::MAX).value_into();
    assert_eq!(dst, Ok((u32::MAX) as u32));
    let dst: Result<u64, _> = (0u32).value_into();
    assert_eq!(dst, Ok(0u64));
    let dst: Result<u64, _> = (1u32).value_into();
    assert_eq!(dst, Ok(1u64));
    let dst: Result<u64, _> = (u32::MAX).value_into();
    assert_eq!(dst, Ok((u32::MAX) as u64));
    let dst: Result<usize, _> = (0u32).value_into();
    assert_eq!(dst, Ok(0usize));
    let dst: Result<usize, _> = (1u32).value_into();
    assert_eq!(dst, Ok(1usize));
    let dst: Result<usize, _> = (u32::MAX).value_into();
    assert_eq!(dst, Ok((u32::MAX) as usize));
    let dst: Result<u8, _> = (0u32).value_into();
    assert_eq!(dst, Ok(0u8));
    let dst: Result<u8, _> = (1u32).value_into();
    assert_eq!(dst, Ok(1u8));
    let dst: Result<u8, _> = (256u32).value_into();
    assert_eq!(dst, Err(PosOverflow(256)));
    let dst: Result<u16, _> = (0u32).value_into();
    assert_eq!(dst, Ok(0u16));
    let dst: Result<u16, _> = (1u32).value_into();
    assert_eq!(dst, Ok(1u16));
    let dst: Result<u16, _> = (65_536u32).value_into();
    assert_eq!(dst, Err(PosOverflow(65_536)));
    let dst: Result<isize, _> = (0u32).value_into();
    assert_eq!(dst, Ok(0isize));
    let dst: Result<isize, _> = (1u32).value_into();
    assert_eq!(dst, Ok(1isize));
    let dst: Result<isize, _> = (2_147_483_647u32).value_into();
    assert_eq!(dst, Ok(2_147_483_647isize));
    if usize::BITS == 64 {
        let dst: Result<isize, _> = (2_147_483_648u32).value_into();
        assert_eq!(dst, Ok(2_147_483_648isize));
    } else {
        let dst: Result<isize, _> = (2_147_483_648u32).value_into();
        assert_eq!(dst, Err(PosOverflow(2_147_483_648)));
    }
}

#[test]
fn test_u64() {
    let dst: Result<i8, _> = (0u64).value_into();
    assert_eq!(dst, Ok(0i8));
    let dst: Result<i8, _> = (1u64).value_into();
    assert_eq!(dst, Ok(1i8));
    let dst: Result<i8, _> = (128u64).value_into();
    assert_eq!(dst, Err(PosOverflow(128)));
    let dst: Result<i16, _> = (0u64).value_into();
    assert_eq!(dst, Ok(0i16));
    let dst: Result<i16, _> = (1u64).value_into();
    assert_eq!(dst, Ok(1i16));
    let dst: Result<i16, _> = (32_768u64).value_into();
    assert_eq!(dst, Err(PosOverflow(32_768)));
    let dst: Result<i32, _> = (0u64).value_into();
    assert_eq!(dst, Ok(0i32));
    let dst: Result<i32, _> = (1u64).value_into();
    assert_eq!(dst, Ok(1i32));
    let dst: Result<i32, _> = (2_147_483_648u64).value_into();
    assert_eq!(dst, Err(PosOverflow(2_147_483_648)));
    let dst: Result<i64, _> = (0u64).value_into();
    assert_eq!(dst, Ok(0i64));
    let dst: Result<i64, _> = (1u64).value_into();
    assert_eq!(dst, Ok(1i64));
    let dst: Result<i64, _> = (9_223_372_036_854_775_808u64).value_into();
    assert_eq!(dst, Err(PosOverflow(9_223_372_036_854_775_808)));
    let dst: Result<u64, _> = (0u64).value_into();
    assert_eq!(dst, Ok(0u64));
    let dst: Result<u64, _> = (1u64).value_into();
    assert_eq!(dst, Ok(1u64));
    let dst: Result<u64, _> = (u64::MAX).value_into();
    assert_eq!(dst, Ok((u64::MAX) as u64));
    let dst: Result<u8, _> = (0u64).value_into();
    assert_eq!(dst, Ok(0u8));
    let dst: Result<u8, _> = (1u64).value_into();
    assert_eq!(dst, Ok(1u8));
    let dst: Result<u8, _> = (256u64).value_into();
    assert_eq!(dst, Err(PosOverflow(256)));
    let dst: Result<u16, _> = (0u64).value_into();
    assert_eq!(dst, Ok(0u16));
    let dst: Result<u16, _> = (1u64).value_into();
    assert_eq!(dst, Ok(1u16));
    let dst: Result<u16, _> = (65_536u64).value_into();
    assert_eq!(dst, Err(PosOverflow(65_536)));
    let dst: Result<u32, _> = (0u64).value_into();
    assert_eq!(dst, Ok(0u32));
    let dst: Result<u32, _> = (1u64).value_into();
    assert_eq!(dst, Ok(1u32));
    let dst: Result<u32, _> = (4_294_967_296u64).value_into();
    assert_eq!(dst, Err(PosOverflow(4_294_967_296)));
    let dst: Result<isize, _> = (0u64).value_into();
    assert_eq!(dst, Ok(0isize));
    let dst: Result<isize, _> = (1u64).value_into();
    assert_eq!(dst, Ok(1isize));
    let dst: Result<usize, _> = (0u64).value_into();
    assert_eq!(dst, Ok(0usize));
    let dst: Result<usize, _> = (1u64).value_into();
    assert_eq!(dst, Ok(1usize));
    if usize::BITS == 64 {
        let dst: Result<isize, _> = (2_147_483_648u64).value_into();
        assert_eq!(dst, Ok(2_147_483_648isize));
        let dst: Result<usize, _> = (4_294_967_296u64).value_into();
        assert_eq!(dst, Ok(4_294_967_296usize));
        let dst: Result<isize, _> = (9_223_372_036_854_775_808u64).value_into();
        assert_eq!(dst, Err(PosOverflow(9_223_372_036_854_775_808)));
        let dst: Result<usize, _> = (u64::MAX).value_into();
        assert_eq!(dst, Ok((u64::MAX) as usize));
    } else {
        let dst: Result<isize, _> = (2_147_483_648u64).value_into();
        assert_eq!(dst, Err(PosOverflow(2_147_483_648)));
        let dst: Result<usize, _> = (4_294_967_296u64).value_into();
        assert_eq!(dst, Err(PosOverflow(4_294_967_296)));
    }
}

#[test]
fn test_isize() {
    let dst: Result<i8, _> = (-1isize).value_into();
    assert_eq!(dst, Ok(-1i8));
    let dst: Result<i8, _> = (0isize).value_into();
    assert_eq!(dst, Ok(0i8));
    let dst: Result<i8, _> = (1isize).value_into();
    assert_eq!(dst, Ok(1i8));
    let dst: Result<i8, _> = (-129isize).value_into();
    assert_eq!(dst, Err(RangeError::NegOverflow(-129)));
    let dst: Result<i8, _> = (128isize).value_into();
    assert_eq!(dst, Err(RangeError::PosOverflow(128)));
    let dst: Result<i16, _> = (-1isize).value_into();
    assert_eq!(dst, Ok(-1i16));
    let dst: Result<i16, _> = (0isize).value_into();
    assert_eq!(dst, Ok(0i16));
    let dst: Result<i16, _> = (1isize).value_into();
    assert_eq!(dst, Ok(1i16));
    let dst: Result<i16, _> = (-32_769isize).value_into();
    assert_eq!(dst, Err(RangeError::NegOverflow(-32_769)));
    let dst: Result<i16, _> = (32_768isize).value_into();
    assert_eq!(dst, Err(RangeError::PosOverflow(32_768)));
    let dst: Result<u8, _> = (0isize).value_into();
    assert_eq!(dst, Ok(0u8));
    let dst: Result<u8, _> = (1isize).value_into();
    assert_eq!(dst, Ok(1u8));
    let dst: Result<u8, _> = (-1isize).value_into();
    assert_eq!(dst, Err(RangeError::NegOverflow(-1)));
    let dst: Result<u8, _> = (256isize).value_into();
    assert_eq!(dst, Err(RangeError::PosOverflow(256)));
    let dst: Result<u16, _> = (0isize).value_into();
    assert_eq!(dst, Ok(0u16));
    let dst: Result<u16, _> = (1isize).value_into();
    assert_eq!(dst, Ok(1u16));
    let dst: Result<u16, _> = (-1isize).value_into();
    assert_eq!(dst, Err(RangeError::NegOverflow(-1)));
    let dst: Result<u16, _> = (65_536isize).value_into();
    assert_eq!(dst, Err(RangeError::PosOverflow(65_536)));
    let dst: Result<isize, _> = (-1isize).value_into();
    assert_eq!(dst, Ok(-1isize));
    let dst: Result<isize, _> = (0isize).value_into();
    assert_eq!(dst, Ok(0isize));
    let dst: Result<isize, _> = (1isize).value_into();
    assert_eq!(dst, Ok(1isize));
    let dst: Result<isize, _> = (isize::MIN).value_into();
    assert_eq!(dst, Ok((isize::MIN) as isize));
    let dst: Result<isize, _> = (isize::MAX).value_into();
    assert_eq!(dst, Ok((isize::MAX) as isize));
    let dst: Result<i32, _> = (-1isize).value_into();
    assert_eq!(dst, Ok(-1i32));
    let dst: Result<i32, _> = (0isize).value_into();
    assert_eq!(dst, Ok(0i32));
    let dst: Result<i32, _> = (1isize).value_into();
    assert_eq!(dst, Ok(1i32));
    let dst: Result<i64, _> = (-1isize).value_into();
    assert_eq!(dst, Ok(-1i64));
    let dst: Result<i64, _> = (0isize).value_into();
    assert_eq!(dst, Ok(0i64));
    let dst: Result<i64, _> = (1isize).value_into();
    assert_eq!(dst, Ok(1i64));
    let dst: Result<u32, _> = (0isize).value_into();
    assert_eq!(dst, Ok(0u32));
    let dst: Result<u32, _> = (1isize).value_into();
    assert_eq!(dst, Ok(1u32));
    let dst: Result<u32, _> = (-1isize).value_into();
    assert_eq!(dst, Err(RangeError::NegOverflow(-1)));
    let dst: Result<u64, _> = (0isize).value_into();
    assert_eq!(dst, Ok(0u64));
    let dst: Result<u64, _> = (1isize).value_into();
    assert_eq!(dst, Ok(1u64));
    let dst: Result<u64, _> = (-1isize).value_into();
    assert_eq!(dst, Err(NegOverflow(-1)));
    let dst: Result<usize, _> = (0isize).value_into();
    assert_eq!(dst, Ok(0usize));
    let dst: Result<usize, _> = (1isize).value_into();
    assert_eq!(dst, Ok(1usize));
    let dst: Result<usize, _> = (-1isize).value_into();
    assert_eq!(dst, Err(NegOverflow(-1)));
    let dst: Result<usize, _> = (isize::MAX).value_into();
    assert_eq!(dst, Ok((isize::MAX) as usize));
}

#[test]
fn test_usize() {
    let dst: Result<i8, _> = (0usize).value_into();
    assert_eq!(dst, Ok(0i8));
    let dst: Result<i8, _> = (1usize).value_into();
    assert_eq!(dst, Ok(1i8));
    let dst: Result<i8, _> = (128usize).value_into();
    assert_eq!(dst, Err(PosOverflow(128)));
    let dst: Result<i16, _> = (0usize).value_into();
    assert_eq!(dst, Ok(0i16));
    let dst: Result<i16, _> = (1usize).value_into();
    assert_eq!(dst, Ok(1i16));
    let dst: Result<i16, _> = (32_768usize).value_into();
    assert_eq!(dst, Err(PosOverflow(32_768)));
    let dst: Result<u8, _> = (0usize).value_into();
    assert_eq!(dst, Ok(0u8));
    let dst: Result<u8, _> = (1usize).value_into();
    assert_eq!(dst, Ok(1u8));
    let dst: Result<u8, _> = (256usize).value_into();
    assert_eq!(dst, Err(PosOverflow(256)));
    let dst: Result<u16, _> = (0usize).value_into();
    assert_eq!(dst, Ok(0u16));
    let dst: Result<u16, _> = (1usize).value_into();
    assert_eq!(dst, Ok(1u16));
    let dst: Result<u16, _> = (65_536usize).value_into();
    assert_eq!(dst, Err(PosOverflow(65_536)));
    let dst: Result<usize, _> = (0usize).value_into();
    assert_eq!(dst, Ok(0usize));
    let dst: Result<usize, _> = (1usize).value_into();
    assert_eq!(dst, Ok(1usize));
    let dst: Result<usize, _> = (usize::MAX).value_into();
    assert_eq!(dst, Ok((usize::MAX) as usize));
    let dst: Result<i32, _> = (0usize).value_into();
    assert_eq!(dst, Ok(0i32));
    let dst: Result<i32, _> = (1usize).value_into();
    assert_eq!(dst, Ok(1i32));
    let dst: Result<i64, _> = (0usize).value_into();
    assert_eq!(dst, Ok(0i64));
    let dst: Result<i64, _> = (1usize).value_into();
    assert_eq!(dst, Ok(1i64));
    let dst: Result<u32, _> = (0usize).value_into();
    assert_eq!(dst, Ok(0u32));
    let dst: Result<u32, _> = (1usize).value_into();
    assert_eq!(dst, Ok(1u32));
    let dst: Result<u64, _> = (0usize).value_into();
    assert_eq!(dst, Ok(0u64));
    let dst: Result<u64, _> = (1usize).value_into();
    assert_eq!(dst, Ok(1u64));
    let dst: Result<isize, _> = (0usize).value_into();
    assert_eq!(dst, Ok(0isize));
    let dst: Result<isize, _> = (1usize).value_into();
    assert_eq!(dst, Ok(1isize));
    let dst: Result<usize, _> = (usize::MAX).value_into();
    assert_eq!(dst, Ok((usize::MAX) as usize));
}

