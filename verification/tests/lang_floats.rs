//! Conversions to and from the floating-point formats: identities, the
//! rounding schemes, and the round-trip-safe boundary constants.

use conv2::{
    ApproxInto, ConvUtil, FloatError, Fp32, Fp64, RangeError, RoundToNearest,
    RoundToNegInf, RoundToPosInf, RoundToZero, ValueInto, MAX_F32_I32, MAX_F32_I64, MAX_F32_U32,
    MAX_F32_U64, MAX_F64_I64, MAX_F64_U64, MIN_F32_I32, MIN_F32_I64, MIN_F64_I64,
};

fn fp32(x: f32) -> Fp32 {
    Fp32::from_bits(x.to_bits())
}

fn fp64(x: f64) -> Fp64 {
    Fp64::from_bits(x.to_bits())
}

/// Increment an f32 by the minimum possible step.
///
/// The `step` input should be 1.0 or -1.0; we will increase
/// it until it actually changes the value.
fn step(x: f32, mut step: f32) -> f32 {
    let mut y = x;
    loop {
        y += step;
        if y != x {
            return y;
        }
        step *= 2.0;
    }
}

/// Increment an f64 by the minimum possible step.
///
/// The `step` input should be 1.0 or -1.0; we will increase
/// it until it actually changes the value.
fn step64(x: f64, mut step: f64) -> f64 {
    let mut y = x;
    loop {
        y += step;
        if y != x {
            return y;
        }
        step *= 2.0;
    }
}

#[test]
fn test_f32() {
    for v in [-1.0f32, 0.0, 1.0, 0.5, -123.25, f32::MAX, f32::MIN, f32::INFINITY] {
        let dst: Result<Fp32, _> = fp32(v).value_into();
        assert_eq!(dst, Ok(fp32(v)));
        let dst: Result<Fp64, _> = fp32(v).value_into();
        assert_eq!(dst, Ok(fp64(v as f64)));
    }
    // Not-a-number stays not-a-number across the widening.
    let dst: Result<Fp64, _> = fp32(f32::NAN).value_into();
    assert!(dst.unwrap().is_nan());
}

#[test]
fn test_f32_to_int() {
    // i8
    for v in [-1.0f32, 0.0, 1.0] {
        assert_eq!(fp32(v).approx_as::<i8>(), Ok(v as i8));
    }
    assert_eq!(fp32(-129.0).approx_as::<i8>(), Err(FloatError::NegOverflow(fp32(-129.0))));
    assert_eq!(fp32(128.0).approx_as::<i8>(), Err(FloatError::PosOverflow(fp32(128.0))));
    // i16
    assert_eq!(fp32(-32_769.0).approx_as::<i16>(), Err(FloatError::NegOverflow(fp32(-32_769.0))));
    assert_eq!(fp32(32_768.0).approx_as::<i16>(), Err(FloatError::PosOverflow(fp32(32_768.0))));
    // i32: the widest values that fit, and the first that do not.
    assert_eq!(fp32(-2.1474836e9).approx_as::<i32>(), Ok(-2147483648));
    assert_eq!(fp32(2.1474835e9).approx_as::<i32>(), Ok(2147483520));
    assert_eq!(
        fp32(-2_147_500_000.0).approx_as::<i32>(),
        Err(FloatError::NegOverflow(fp32(-2_147_500_000.0))),
    );
    assert_eq!(
        fp32(2_147_500_000.0).approx_as::<i32>(),
        Err(FloatError::PosOverflow(fp32(2_147_500_000.0))),
    );
    // i64
    assert_eq!(fp32(-9.223372e18).approx_as::<i64>(), Ok(-9223372036854775808));
    assert_eq!(fp32(9.2233715e18).approx_as::<i64>(), Ok(9223371487098961920));
    assert_eq!(
        fp32(-9_223_373_000_000_000_000.0).approx_as::<i64>(),
        Err(FloatError::NegOverflow(fp32(-9_223_373_000_000_000_000.0))),
    );
    assert_eq!(
        fp32(9_223_373_000_000_000_000.0).approx_as::<i64>(),
        Err(FloatError::PosOverflow(fp32(9_223_373_000_000_000_000.0))),
    );
    // u8
    assert_eq!(fp32(-1.0).approx_as::<u8>(), Err(FloatError::NegOverflow(fp32(-1.0))));
    assert_eq!(fp32(256.0).approx_as::<u8>(), Err(FloatError::PosOverflow(fp32(256.0))));
    // u16
    assert_eq!(fp32(-1.0).approx_as::<u16>(), Err(FloatError::NegOverflow(fp32(-1.0))));
    assert_eq!(fp32(65_536.0).approx_as::<u16>(), Err(FloatError::PosOverflow(fp32(65_536.0))));
    // u32
    assert_eq!(fp32(4.294967e9).approx_as::<u32>(), Ok(4294967040));
    assert_eq!(fp32(-1.0).approx_as::<u32>(), Err(FloatError::NegOverflow(fp32(-1.0))));
    assert_eq!(
        fp32(4_294_968_000.0).approx_as::<u32>(),
        Err(FloatError::PosOverflow(fp32(4_294_968_000.0))),
    );
    // u64
    assert_eq!(fp32(1.8446743e19).approx_as::<u64>(), Ok(18446742974197923840));
    assert_eq!(fp32(-1.0).approx_as::<u64>(), Err(FloatError::NegOverflow(fp32(-1.0))));
    assert_eq!(
        fp32(18_446_746_000_000_000_000.0).approx_as::<u64>(),
        Err(FloatError::PosOverflow(fp32(18_446_746_000_000_000_000.0))),
    );
    // infinities always overflow, not-a-number never converts
    assert_eq!(
        fp32(f32::INFINITY).approx_as::<i32>(),
        Err(FloatError::PosOverflow(fp32(f32::INFINITY))),
    );
    assert_eq!(
        fp32(f32::NEG_INFINITY).approx_as::<i32>(),
        Err(FloatError::NegOverflow(fp32(f32::NEG_INFINITY))),
    );
    assert_eq!(fp32(f32::NAN).approx_as::<i32>(), Err(FloatError::NotANumber(fp32(f32::NAN))));
}

#[test]
fn test_f64_to_int() {
    for v in [-1.0f64, 0.0, 1.0] {
        assert_eq!(fp64(v).approx_as::<i8>(), Ok(v as i8));
    }
    assert_eq!(fp64(-129.0).approx_as::<i8>(), Err(FloatError::NegOverflow(fp64(-129.0))));
    assert_eq!(fp64(128.0).approx_as::<i8>(), Err(FloatError::PosOverflow(fp64(128.0))));
    assert_eq!(fp64(-32_769.0).approx_as::<i16>(), Err(FloatError::NegOverflow(fp64(-32_769.0))));
    assert_eq!(fp64(32_768.0).approx_as::<i16>(), Err(FloatError::PosOverflow(fp64(32_768.0))));
    assert_eq!(
        fp64(-2_147_483_649.0).approx_as::<i32>(),
        Err(FloatError::NegOverflow(fp64(-2_147_483_649.0))),
    );
    assert_eq!(
        fp64(2_147_483_648.0).approx_as::<i32>(),
        Err(FloatError::PosOverflow(fp64(2_147_483_648.0))),
    );
    assert_eq!(fp64(-9.223372036854776e18).approx_as::<i64>(), Ok(-9223372036854775808));
    assert_eq!(fp64(9.223372036854775e18).approx_as::<i64>(), Ok(9223372036854774784));
    assert_eq!(
        fp64(-9_223_372_036_854_778_000.0).approx_as::<i64>(),
        Err(FloatError::NegOverflow(fp64(-9_223_372_036_854_778_000.0))),
    );
    assert_eq!(
        fp64(9_223_372_036_854_778_000.0).approx_as::<i64>(),
        Err(FloatError::PosOverflow(fp64(9_223_372_036_854_778_000.0))),
    );
    assert_eq!(fp64(-1.0).approx_as::<u8>(), Err(FloatError::NegOverflow(fp64(-1.0))));
    assert_eq!(fp64(256.0).approx_as::<u8>(), Err(FloatError::PosOverflow(fp64(256.0))));
    assert_eq!(fp64(-1.0).approx_as::<u16>(), Err(FloatError::NegOverflow(fp64(-1.0))));
    assert_eq!(fp64(65_536.0).approx_as::<u16>(), Err(FloatError::PosOverflow(fp64(65_536.0))));
    assert_eq!(fp64(-1.0).approx_as::<u32>(), Err(FloatError::NegOverflow(fp64(-1.0))));
    assert_eq!(
        fp64(4_294_967_296.0).approx_as::<u32>(),
        Err(FloatError::PosOverflow(fp64(4_294_967_296.0))),
    );
    assert_eq!(fp64(1.844674407370955e19).approx_as::<u64>(), Ok(18446744073709549568));
    assert_eq!(fp64(-1.0).approx_as::<u64>(), Err(FloatError::NegOverflow(fp64(-1.0))));
    assert_eq!(
        fp64(18_446_744_073_709_560_000.0).approx_as::<u64>(),
        Err(FloatError::PosOverflow(fp64(18_446_744_073_709_560_000.0))),
    );
}

#[test]
fn test_f64() {
    // A value just barely too negative for an f32.
    const F32UNDER: f64 = f32::MIN as f64 - 1e23;
    // A value just barely too positive for an f32.
    const F32OVER: f64 = f32::MAX as f64 + 1e23;

    for v in [-1.0f64, 0.0, 1.0, 0.5, -123.25] {
        let dst: Result<Fp32, _> = fp64(v).approx_into();
        assert_eq!(dst, Ok(fp32(v as f32)));
        let dst: Result<Fp64, _> = fp64(v).value_into();
        assert_eq!(dst, Ok(fp64(v)));
    }
    let dst: Result<Fp32, _> = fp64(F32UNDER).approx_into();
    assert_eq!(dst, Err(RangeError::NegOverflow(fp64(F32UNDER))));
    let dst: Result<Fp32, _> = fp64(F32OVER).approx_into();
    assert_eq!(dst, Err(RangeError::PosOverflow(fp64(F32OVER))));
    // Rounded narrowing, including values that need the nearest-even rule.
    for v in [
        3.141592653589793f64,
        -2.718281828459045,
        1.0000000596046448,
        1e-40,
        -1e-42,
        f64::MIN_POSITIVE,
        f32::MAX as f64,
        f32::MIN as f64,
    ] {
        let dst: Result<Fp32, _> = fp64(v).approx_into();
        assert_eq!(dst, Ok(fp32(v as f32)));
    }
    // Infinities pass through; not-a-number stays not-a-number.
    let dst: Result<Fp32, _> = fp64(f64::INFINITY).approx_into();
    assert_eq!(dst, Ok(fp32(f32::INFINITY)));
    let dst: Result<Fp32, _> = fp64(f64::NEG_INFINITY).approx_into();
    assert_eq!(dst, Ok(fp32(f32::NEG_INFINITY)));
    let dst: Result<Fp32, _> = fp64(f64::NAN).approx_into();
    assert!(dst.unwrap().is_nan());
}

#[test]
fn test_rounding() {
    assert_eq!(fp32(8.5).approx_as::<u8>(), Ok(8));
    assert_eq!(fp32(8.5).approx_as_by::<u8, RoundToZero>(), Ok(8));
    assert_eq!(fp32(8.5).approx_as_by::<u8, RoundToNegInf>(), Ok(8));
    assert_eq!(fp32(8.5).approx_as_by::<u8, RoundToPosInf>(), Ok(9));
    assert_eq!(fp32(8.5).approx_as_by::<u8, RoundToNearest>(), Ok(9));

    assert_eq!(fp32(-8.5).approx_as::<i8>(), Ok(-8));
    assert_eq!(fp32(-8.5).approx_as_by::<i8, RoundToZero>(), Ok(-8));
    assert_eq!(fp32(-8.5).approx_as_by::<i8, RoundToNegInf>(), Ok(-9));
    assert_eq!(fp32(-8.5).approx_as_by::<i8, RoundToPosInf>(), Ok(-8));
    assert_eq!(fp32(-8.5).approx_as_by::<i8, RoundToNearest>(), Ok(-9));

    // The rounding schemes at the fractional steps around zero and one.
    for (v, rtn, rni, rpi, rtz) in [
        (-1.00f32, -1i8, -1i8, -1i8, -1i8),
        (-0.75, -1, -1, 0, 0),
        (-0.50, -1, -1, 0, 0),
        (-0.25, 0, -1, 0, 0),
        (0.00, 0, 0, 0, 0),
        (0.25, 0, 0, 1, 0),
        (0.50, 1, 0, 1, 0),
        (0.75, 1, 0, 1, 0),
        (1.00, 1, 1, 1, 1),
    ] {
        assert_eq!(fp32(v).approx_as_by::<i8, RoundToNearest>(), Ok(rtn));
        assert_eq!(fp32(v).approx_as_by::<i8, RoundToNegInf>(), Ok(rni));
        assert_eq!(fp32(v).approx_as_by::<i8, RoundToPosInf>(), Ok(rpi));
        assert_eq!(fp32(v).approx_as_by::<i8, RoundToZero>(), Ok(rtz));
    }

    // When converting float to int, it's possible that different rounding
    // modes will cause the same input to overflow the output type.

    // Verify that the default scheme rounds toward zero, and allows values
    // that start out 0.9 beyond the maximum allowed.
    assert_eq!(fp32(127.9).approx_as::<i8>(), Ok(127));
    assert_eq!(fp32(-128.9).approx_as::<i8>(), Ok(-128));
    assert_eq!(fp32(255.9).approx_as::<u8>(), Ok(255));
    assert_eq!(fp32(32767.9).approx_as::<i16>(), Ok(32767));
    assert_eq!(fp32(-32768.9).approx_as::<i16>(), Ok(-32768));
    assert_eq!(fp32(65535.9).approx_as::<u16>(), Ok(65535));

    assert_eq!(fp64(2147483647.9).approx_as::<i32>(), Ok(2147483647));
    assert_eq!(fp64(-2147483648.9).approx_as::<i32>(), Ok(-2147483648));
    assert_eq!(fp64(4294967295.9).approx_as::<u32>(), Ok(4294967295));

    // Test the other rounding modes.
    assert_eq!(fp32(255.5).approx_as_by::<u8, RoundToZero>(), Ok(255));
    assert_eq!(fp32(255.5).approx_as_by::<u8, RoundToNegInf>(), Ok(255));
    assert_eq!(
        fp32(255.5).approx_as_by::<u8, RoundToPosInf>(),
        Err(FloatError::PosOverflow(fp32(255.5))),
    );
    assert_eq!(
        fp32(255.5).approx_as_by::<u8, RoundToNearest>(),
        Err(FloatError::PosOverflow(fp32(255.5))),
    );
}

#[test]
fn test_limits() {
    // Verify that the min and max values we use are the actual limits:
    // they succeed, and anything further from zero will fail.
    // Additionally, verify that anything further away will exceed
    // integer limits for that type.

    // f32 -> i32/u32

    assert_eq!(fp32(MAX_F32_I32 as f32).approx_as::<i32>(), Ok(2147483520));
    assert!(fp32(step(MAX_F32_I32 as f32, 1.0)).approx_as::<i32>().is_err());
    assert!(step(MAX_F32_I32 as f32, 1.0) as i64 > i32::MAX as i64);

    assert_eq!(fp32(MIN_F32_I32 as f32).approx_as::<i32>(), Ok(-2147483648));
    assert!(fp32(step(MIN_F32_I32 as f32, -1.0)).approx_as::<i32>().is_err());
    assert!((step(MIN_F32_I32 as f32, -1.0) as i64) < i32::MIN as i64);

    assert_eq!(fp32(MAX_F32_U32 as f32).approx_as::<u32>(), Ok(4294967040));
    assert!(fp32(step(MAX_F32_U32 as f32, 1.0)).approx_as::<u32>().is_err());
    assert!(step(MAX_F32_U32 as f32, 1.0) as u64 > u32::MAX as u64);

    assert_eq!(fp32(0.0).approx_as::<u32>(), Ok(0));
    assert_eq!(fp32(-0.0).approx_as::<u32>(), Ok(0));

    // f32 -> i64/u64

    assert_eq!(fp32(MAX_F32_I64 as f32).approx_as::<i64>(), Ok(9223371487098961920));
    assert!(fp32(step(MAX_F32_I64 as f32, 1.0)).approx_as::<i64>().is_err());
    assert!(step(MAX_F32_I64 as f32, 1.0) as i128 > i64::MAX as i128);

    assert_eq!(fp32(MIN_F32_I64 as f32).approx_as::<i64>(), Ok(-9223372036854775808));
    assert!(fp32(step(MIN_F32_I64 as f32, -1.0)).approx_as::<i64>().is_err());
    assert!((step(MIN_F32_I64 as f32, -1.0) as i128) < i64::MIN as i128);

    assert_eq!(fp32(MAX_F32_U64 as f32).approx_as::<u64>(), Ok(18446742974197923840));
    assert!(fp32(step(MAX_F32_U64 as f32, 1.0)).approx_as::<u64>().is_err());
    assert!(step(MAX_F32_U64 as f32, 1.0) as u128 > u64::MAX as u128);

    assert_eq!(fp32(0.0).approx_as::<u64>(), Ok(0));
    assert_eq!(fp32(-0.0).approx_as::<u64>(), Ok(0));

    // f64 -> i64/u64

    assert_eq!(fp64(MAX_F64_I64 as f64).approx_as::<i64>(), Ok(9223372036854774784));
    assert!(fp64(step64(MAX_F64_I64 as f64, 1.0)).approx_as::<i64>().is_err());
    assert!(step64(MAX_F64_I64 as f64, 1.0) as i128 > i64::MAX as i128);

    assert_eq!(fp64(MIN_F64_I64 as f64).approx_as::<i64>(), Ok(-9223372036854775808));
    assert!(fp64(step64(MIN_F64_I64 as f64, -1.0)).approx_as::<i64>().is_err());
    assert!((step64(MIN_F64_I64 as f64, -1.0) as i128) < i64::MIN as i128);

    assert_eq!(fp64(MAX_F64_U64 as f64).approx_as::<u64>(), Ok(18446744073709549568));
    assert!(fp64(step64(MAX_F64_U64 as f64, 1.0)).approx_as::<u64>().is_err());
    assert!(step64(MAX_F64_U64 as f64, 1.0) as u128 > u64::MAX as u128);

    assert_eq!(fp32(0.0).approx_as::<u64>(), Ok(0));
    assert_eq!(fp32(-0.0).approx_as::<u64>(), Ok(0));
}
