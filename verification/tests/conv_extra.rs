//! Concrete checks of the engine's stated properties: the documented
//! scenarios, wrapping's modular behaviour, error widening, the fallback
//! helpers, and round trips through the floating-point formats.

use conv2::engine::{check_bounds, BoundCheck};
use conv2::{
    ApproxFrom, ApproxInto, ConvAsUtil, ConvUtil, DefaultApprox, FloatError, Fp32, Fp64,
    GeneralError, GeneralErrorKind, NegOverflow, PosOverflow, RangeError, RangeErrorKind,
    RoundToNearest, RoundToZero, Saturate, UnwrapOk, UnwrapOrInf, UnwrapOrInvalid,
    UnwrapOrSaturate, ValueFrom, ValueInto, Wrapping,
};

fn fp32(x: f32) -> Fp32 {
    Fp32::from_bits(x.to_bits())
}

fn fp64(x: f64) -> Fp64 {
    Fp64::from_bits(x.to_bits())
}

#[test]
fn scenario_narrowing_errors() {
    assert_eq!(i8::value_from(200i16), Err(RangeError::PosOverflow(200)));
    assert_eq!(u8::value_from(-1i8), Err(NegOverflow(-1)));
    assert_eq!(u8::value_from(-1i16), Err(RangeError::NegOverflow(-1)));
    assert_eq!(u8::value_from(0i16), Ok(0u8));
    assert_eq!(u8::value_from(256i16), Err(RangeError::PosOverflow(256)));
}

#[test]
fn scenario_rounding_overflow() {
    assert_eq!(
        fp32(255.5).approx_as_by::<u8, RoundToNearest>(),
        Err(FloatError::PosOverflow(fp32(255.5))),
    );
    assert_eq!(fp32(255.5).approx_as_by::<u8, RoundToZero>(), Ok(255));
}

#[test]
fn scenario_int_to_float_precision() {
    assert_eq!(16_777_216i32.value_as::<Fp64>(), Ok(fp64(16_777_216.0)));
    assert_eq!(16_777_216i32.value_as::<Fp32>(), Ok(fp32(16_777_216.0)));
    assert_eq!(16_777_217i32.value_as::<Fp32>(), Err(RangeError::PosOverflow(16_777_217)));
    assert_eq!((-16_777_217i32).value_as::<Fp32>(), Err(RangeError::NegOverflow(-16_777_217)));
    assert_eq!(16_777_216u32.value_as::<Fp32>(), Ok(fp32(16_777_216.0)));
    assert_eq!(16_777_217u32.value_as::<Fp32>(), Err(PosOverflow(16_777_217)));
    assert_eq!(9_007_199_254_740_992i64.value_as::<Fp64>(), Ok(fp64(9_007_199_254_740_992.0)));
    assert_eq!(
        9_007_199_254_740_993i64.value_as::<Fp64>(),
        Err(RangeError::PosOverflow(9_007_199_254_740_993)),
    );
    // A handful of exact encodings, against the platform's own cast.
    for v in [0i32, 1, -1, 2, -2, 255, 4095, -4096, 8_388_607, -8_388_608, 16_777_215] {
        assert_eq!(v.value_as::<Fp32>(), Ok(fp32(v as f32)));
        assert_eq!(v.value_as::<Fp64>(), Ok(fp64(v as f64)));
    }
}

#[test]
fn scenario_saturation() {
    assert_eq!(u8::value_from(-5i32).saturate().unwrap_ok(), 0u8);
    assert_eq!(u8::value_from(300i32).saturate().unwrap_ok(), 255u8);
    assert!(fp32(f32::NAN).approx_as::<u8>().saturate().is_err());
    assert_eq!(
        fp32(f32::NAN).approx_as::<u8>().saturate(),
        Err(conv2::Unrepresentable(fp32(f32::NAN))),
    );
    assert_eq!(fp32(-23.0).approx_as::<u8>().saturate(), Ok(0));
    assert_eq!(fp32(302.0).approx_as::<u8>().saturate(), Ok(255u8));
}

#[test]
fn wrapping_is_modular() {
    assert_eq!(<u8 as ApproxFrom<u16, Wrapping>>::approx_from(400u16), Ok(144u8));
    assert_eq!(400u16.approx_by::<Wrapping>(), Ok::<u8, _>(144u8));
    assert_eq!(400u16.approx_as_by::<u8, Wrapping>(), Ok(144));
    assert_eq!((-1i8).approx_as_by::<u8, Wrapping>(), Ok(255u8));
    assert_eq!(300i16.approx_as_by::<i8, Wrapping>(), Ok(44i8));
    assert_eq!(i16::MIN.approx_as_by::<u8, Wrapping>(), Ok(0u8));
    assert_eq!(u64::MAX.approx_as_by::<i8, Wrapping>(), Ok(-1i8));
    assert_eq!(128u8.approx_as_by::<i8, Wrapping>(), Ok(-128i8));
    // Wrapping a value already in range changes nothing.
    assert_eq!(100i16.approx_as_by::<i8, Wrapping>(), Ok(100i8));
    // The default scheme between integers never wraps.
    assert_eq!(
        <u8 as ApproxFrom<u16, DefaultApprox>>::approx_from(400u16),
        Err(PosOverflow(400)),
    );
    assert_eq!(400u16.approx(), Err::<u8, _>(PosOverflow(400)));
    assert_eq!(400u16.approx_as::<u8>(), Err(PosOverflow(400)));
}

#[test]
fn widening_round_trips() {
    assert_eq!(u8::value_from(0u8).unwrap_ok(), 0u8);
    for v in [i8::MIN, -1, 0, 1, i8::MAX] {
        let wide: i64 = v.value_into().unwrap_ok();
        assert_eq!(i8::value_from(wide), Ok(v));
    }
    for v in [0u16, 1, 255, 65535] {
        let wide: u64 = v.value_into().unwrap_ok();
        assert_eq!(u16::value_from(wide), Ok(v));
    }
}

#[test]
fn float_round_trips() {
    // Every single-precision value survives the trip through double
    // precision, subnormals and extremes included.
    for v in [
        0.0f32,
        -0.0,
        1.0,
        -1.0,
        0.1,
        core::f32::consts::PI,
        f32::MAX,
        f32::MIN,
        f32::MIN_POSITIVE,
        1e-40,
        -1e-44,
        f32::INFINITY,
        f32::NEG_INFINITY,
    ] {
        let wide: Fp64 = fp32(v).value_into().unwrap_ok();
        assert_eq!(wide, fp64(v as f64));
        let back: Result<Fp32, _> = wide.approx_into();
        assert_eq!(back, Ok(fp32(v)));
    }
}

#[test]
fn error_widening() {
    assert_eq!(GeneralError::from(NegOverflow(7u8)).into_inner(), 7u8);
    assert_eq!(GeneralError::from(RangeError::PosOverflow(9i32)), GeneralError::PosOverflow(9));
    assert_eq!(
        GeneralError::from(FloatError::NotANumber(fp32(f32::NAN))),
        GeneralError::Unrepresentable(fp32(f32::NAN)),
    );
    assert_eq!(FloatError::from(RangeError::NegOverflow(3i8)), FloatError::NegOverflow(3));
    assert_eq!(FloatError::NotANumber(5u8).into_inner(), 5u8);
    assert_eq!(GeneralErrorKind::from(PosOverflow(1u8)), GeneralErrorKind::PosOverflow);
    assert_eq!(GeneralErrorKind::from(RangeErrorKind::NegOverflow), GeneralErrorKind::NegOverflow);
    assert_eq!(
        GeneralErrorKind::from(FloatError::NotANumber(0u8)),
        GeneralErrorKind::Unrepresentable,
    );
    assert_eq!(RangeErrorKind::from(RangeError::PosOverflow(2i16)), RangeErrorKind::PosOverflow);
}

#[test]
fn unwrap_helpers() {
    assert_eq!(u8::value_from(-1i16).unwrap_or_saturate(), 0u8);
    assert_eq!(u8::value_from(0i16).unwrap_or_saturate(), 0u8);
    assert_eq!(u8::value_from(256i16).unwrap_or_saturate(), 255u8);
    assert_eq!(i8::value_from(-300i16).unwrap_or_saturate(), i8::MIN);

    let over: Result<Fp32, RangeError<i32>> = i32::MAX.value_into();
    assert_eq!(f32::from_bits(over.unwrap_or_inf().to_bits()), f32::INFINITY);
    let under: Result<Fp32, RangeError<i32>> = i32::MIN.value_into();
    assert_eq!(f32::from_bits(under.unwrap_or_inf().to_bits()), f32::NEG_INFINITY);

    let bad: Result<Fp32, RangeError<i64>> = i64::MAX.value_into();
    assert!(f32::from_bits(bad.unwrap_or_invalid().to_bits()).is_nan());
    let good: Result<Fp32, RangeError<i64>> = 41i64.value_into();
    assert_eq!(good.unwrap_or_invalid(), fp32(41.0));
}

#[test]
fn default_scheme_examples() {
    assert_eq!(fp32(41.0).approx(), Ok(41u8));
    assert_eq!(fp32(41.3).approx(), Ok(41u8));
    assert_eq!(fp32(41.5).approx(), Ok(41u8));
    assert_eq!(fp32(41.8).approx(), Ok(41u8));
    assert_eq!(fp32(42.0).approx(), Ok(42u8));
    assert_eq!(fp32(255.0).approx(), Ok(255u8));
    assert_eq!(fp32(256.0).approx(), Err::<u8, _>(FloatError::PosOverflow(fp32(256.0))));
}

#[test]
fn bound_check_order() {
    // An input below the lower bound and above the upper bound at once —
    // possible only with crossed bounds — reports the lower violation.
    assert_eq!(check_bounds(5, 10, 0), BoundCheck::TooLow);
    assert_eq!(check_bounds(-3, 0, 10), BoundCheck::TooLow);
    assert_eq!(check_bounds(11, 0, 10), BoundCheck::TooHigh);
    assert_eq!(check_bounds(7, 0, 10), BoundCheck::Within);
}
