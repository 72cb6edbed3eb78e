//! Conversion rules from the floating-point formats to the integer types.
//!
//! Each (format, integer type) pair gets one rule per approximation
//! scheme.  Under [`DefaultApprox`] and [`RoundToZero`] the value is
//! truncated toward zero; the narrow destinations accept any value
//! strictly within one of their own bounds (truncation pulls it back into
//! range), while the wide destinations — whose extremes the format cannot
//! represent exactly — use the boundary constant table as inclusive bounds
//! on the raw value.  The explicit rounding schemes round first and check
//! the rounded value against the same bounds.  Not-a-number is always
//! rejected first, as [`FloatError::NotANumber`]; infinities simply fail
//! the range checks in their own direction.
//!
//! For the pointer-sized destinations the rule is selected by the type's
//! width, mirroring the fixed 32- and 64-bit rules.

use vstd::prelude::*;

use crate::errors::FloatError;
use crate::fp::{Fp32, Fp64};
use crate::fp_to_int::{
    convert_round_checked, convert_trunc_excl, convert_trunc_incl, round_checked_spec,
    trunc_excl_spec, trunc_incl_spec,
};
use crate::fround::RoundMode;
use crate::limits::{
    MAX_F32_I32, MAX_F32_I64, MAX_F32_U32, MAX_F32_U64, MAX_F64_I64, MAX_F64_U64,
};
use crate::traits::{
    ApproxFrom, DefaultApprox, RoundToNearest, RoundToNegInf, RoundToPosInf, RoundToZero,
};

verus! {

impl ApproxFrom<Fp32, DefaultApprox> for i8 {
    type Err = FloatError<Fp32>;

    open spec fn approx_from_spec(src: Fp32) -> Result<i8, FloatError<Fp32>> {
        trunc_excl_spec::<Fp32, i8>(src, i8::MIN - 1, i8::MAX + 1)
    }

    fn approx_from(src: Fp32) -> (r: Result<i8, FloatError<Fp32>>) {
        convert_trunc_excl::<Fp32, i8>(src, i8::MIN as i128 - 1, i8::MAX as i128 + 1)
    }
}

impl ApproxFrom<Fp32, RoundToZero> for i8 {
    type Err = FloatError<Fp32>;

    open spec fn approx_from_spec(src: Fp32) -> Result<i8, FloatError<Fp32>> {
        trunc_excl_spec::<Fp32, i8>(src, i8::MIN - 1, i8::MAX + 1)
    }

    fn approx_from(src: Fp32) -> (r: Result<i8, FloatError<Fp32>>) {
        convert_trunc_excl::<Fp32, i8>(src, i8::MIN as i128 - 1, i8::MAX as i128 + 1)
    }
}

impl ApproxFrom<Fp32, RoundToNearest> for i8 {
    type Err = FloatError<Fp32>;

    open spec fn approx_from_spec(src: Fp32) -> Result<i8, FloatError<Fp32>> {
        round_checked_spec::<Fp32, i8>(src, RoundMode::HalfAway, i8::MIN as int, i8::MAX as int)
    }

    fn approx_from(src: Fp32) -> (r: Result<i8, FloatError<Fp32>>) {
        convert_round_checked::<Fp32, i8>(src, RoundMode::HalfAway, i8::MIN as i128, i8::MAX as i128)
    }
}

impl ApproxFrom<Fp32, RoundToNegInf> for i8 {
    type Err = FloatError<Fp32>;

    open spec fn approx_from_spec(src: Fp32) -> Result<i8, FloatError<Fp32>> {
        round_checked_spec::<Fp32, i8>(src, RoundMode::Floor, i8::MIN as int, i8::MAX as int)
    }

    fn approx_from(src: Fp32) -> (r: Result<i8, FloatError<Fp32>>) {
        convert_round_checked::<Fp32, i8>(src, RoundMode::Floor, i8::MIN as i128, i8::MAX as i128)
    }
}

impl ApproxFrom<Fp32, RoundToPosInf> for i8 {
    type Err = FloatError<Fp32>;

    open spec fn approx_from_spec(src: Fp32) -> Result<i8, FloatError<Fp32>> {
        round_checked_spec::<Fp32, i8>(src, RoundMode::Ceil, i8::MIN as int, i8::MAX as int)
    }

    fn approx_from(src: Fp32) -> (r: Result<i8, FloatError<Fp32>>) {
        convert_round_checked::<Fp32, i8>(src, RoundMode::Ceil, i8::MIN as i128, i8::MAX as i128)
    }
}

impl ApproxFrom<Fp32, DefaultApprox> for i16 {
    type Err = FloatError<Fp32>;

    open spec fn approx_from_spec(src: Fp32) -> Result<i16, FloatError<Fp32>> {
        trunc_excl_spec::<Fp32, i16>(src, i16::MIN - 1, i16::MAX + 1)
    }

    fn approx_from(src: Fp32) -> (r: Result<i16, FloatError<Fp32>>) {
        convert_trunc_excl::<Fp32, i16>(src, i16::MIN as i128 - 1, i16::MAX as i128 + 1)
    }
}

impl ApproxFrom<Fp32, RoundToZero> for i16 {
    type Err = FloatError<Fp32>;

    open spec fn approx_from_spec(src: Fp32) -> Result<i16, FloatError<Fp32>> {
        trunc_excl_spec::<Fp32, i16>(src, i16::MIN - 1, i16::MAX + 1)
    }

    fn approx_from(src: Fp32) -> (r: Result<i16, FloatError<Fp32>>) {
        convert_trunc_excl::<Fp32, i16>(src, i16::MIN as i128 - 1, i16::MAX as i128 + 1)
    }
}

impl ApproxFrom<Fp32, RoundToNearest> for i16 {
    type Err = FloatError<Fp32>;

    open spec fn approx_from_spec(src: Fp32) -> Result<i16, FloatError<Fp32>> {
        round_checked_spec::<Fp32, i16>(src, RoundMode::HalfAway, i16::MIN as int, i16::MAX as int)
    }

    fn approx_from(src: Fp32) -> (r: Result<i16, FloatError<Fp32>>) {
        convert_round_checked::<Fp32, i16>(src, RoundMode::HalfAway, i16::MIN as i128, i16::MAX as i128)
    }
}

impl ApproxFrom<Fp32, RoundToNegInf> for i16 {
    type Err = FloatError<Fp32>;

    open spec fn approx_from_spec(src: Fp32) -> Result<i16, FloatError<Fp32>> {
        round_checked_spec::<Fp32, i16>(src, RoundMode::Floor, i16::MIN as int, i16::MAX as int)
    }

    fn approx_from(src: Fp32) -> (r: Result<i16, FloatError<Fp32>>) {
        convert_round_checked::<Fp32, i16>(src, RoundMode::Floor, i16::MIN as i128, i16::MAX as i128)
    }
}

impl ApproxFrom<Fp32, RoundToPosInf> for i16 {
    type Err = FloatError<Fp32>;

    open spec fn approx_from_spec(src: Fp32) -> Result<i16, FloatError<Fp32>> {
        round_checked_spec::<Fp32, i16>(src, RoundMode::Ceil, i16::MIN as int, i16::MAX as int)
    }

    fn approx_from(src: Fp32) -> (r: Result<i16, FloatError<Fp32>>) {
        convert_round_checked::<Fp32, i16>(src, RoundMode::Ceil, i16::MIN as i128, i16::MAX as i128)
    }
}

impl ApproxFrom<Fp32, DefaultApprox> for u8 {
    type Err = FloatError<Fp32>;

    open spec fn approx_from_spec(src: Fp32) -> Result<u8, FloatError<Fp32>> {
        trunc_excl_spec::<Fp32, u8>(src, u8::MIN - 1, u8::MAX + 1)
    }

    fn approx_from(src: Fp32) -> (r: Result<u8, FloatError<Fp32>>) {
        convert_trunc_excl::<Fp32, u8>(src, u8::MIN as i128 - 1, u8::MAX as i128 + 1)
    }
}

impl ApproxFrom<Fp32, RoundToZero> for u8 {
    type Err = FloatError<Fp32>;

    open spec fn approx_from_spec(src: Fp32) -> Result<u8, FloatError<Fp32>> {
        trunc_excl_spec::<Fp32, u8>(src, u8::MIN - 1, u8::MAX + 1)
    }

    fn approx_from(src: Fp32) -> (r: Result<u8, FloatError<Fp32>>) {
        convert_trunc_excl::<Fp32, u8>(src, u8::MIN as i128 - 1, u8::MAX as i128 + 1)
    }
}

impl ApproxFrom<Fp32, RoundToNearest> for u8 {
    type Err = FloatError<Fp32>;

    open spec fn approx_from_spec(src: Fp32) -> Result<u8, FloatError<Fp32>> {
        round_checked_spec::<Fp32, u8>(src, RoundMode::HalfAway, u8::MIN as int, u8::MAX as int)
    }

    fn approx_from(src: Fp32) -> (r: Result<u8, FloatError<Fp32>>) {
        convert_round_checked::<Fp32, u8>(src, RoundMode::HalfAway, u8::MIN as i128, u8::MAX as i128)
    }
}

impl ApproxFrom<Fp32, RoundToNegInf> for u8 {
    type Err = FloatError<Fp32>;

    open spec fn approx_from_spec(src: Fp32) -> Result<u8, FloatError<Fp32>> {
        round_checked_spec::<Fp32, u8>(src, RoundMode::Floor, u8::MIN as int, u8::MAX as int)
    }

    fn approx_from(src: Fp32) -> (r: Result<u8, FloatError<Fp32>>) {
        convert_round_checked::<Fp32, u8>(src, RoundMode::Floor, u8::MIN as i128, u8::MAX as i128)
    }
}

impl ApproxFrom<Fp32, RoundToPosInf> for u8 {
    type Err = FloatError<Fp32>;

    open spec fn approx_from_spec(src: Fp32) -> Result<u8, FloatError<Fp32>> {
        round_checked_spec::<Fp32, u8>(src, RoundMode::Ceil, u8::MIN as int, u8::MAX as int)
    }

    fn approx_from(src: Fp32) -> (r: Result<u8, FloatError<Fp32>>) {
        convert_round_checked::<Fp32, u8>(src, RoundMode::Ceil, u8::MIN as i128, u8::MAX as i128)
    }
}

impl ApproxFrom<Fp32, DefaultApprox> for u16 {
    type Err = FloatError<Fp32>;

    open spec fn approx_from_spec(src: Fp32) -> Result<u16, FloatError<Fp32>> {
        trunc_excl_spec::<Fp32, u16>(src, u16::MIN - 1, u16::MAX + 1)
    }

    fn approx_from(src: Fp32) -> (r: Result<u16, FloatError<Fp32>>) {
        convert_trunc_excl::<Fp32, u16>(src, u16::MIN as i128 - 1, u16::MAX as i128 + 1)
    }
}

impl ApproxFrom<Fp32, RoundToZero> for u16 {
    type Err = FloatError<Fp32>;

    open spec fn approx_from_spec(src: Fp32) -> Result<u16, FloatError<Fp32>> {
        trunc_excl_spec::<Fp32, u16>(src, u16::MIN - 1, u16::MAX + 1)
    }

    fn approx_from(src: Fp32) -> (r: Result<u16, FloatError<Fp32>>) {
        convert_trunc_excl::<Fp32, u16>(src, u16::MIN as i128 - 1, u16::MAX as i128 + 1)
    }
}

impl ApproxFrom<Fp32, RoundToNearest> for u16 {
    type Err = FloatError<Fp32>;

    open spec fn approx_from_spec(src: Fp32) -> Result<u16, FloatError<Fp32>> {
        round_checked_spec::<Fp32, u16>(src, RoundMode::HalfAway, u16::MIN as int, u16::MAX as int)
    }

    fn approx_from(src: Fp32) -> (r: Result<u16, FloatError<Fp32>>) {
        convert_round_checked::<Fp32, u16>(src, RoundMode::HalfAway, u16::MIN as i128, u16::MAX as i128)
    }
}

impl ApproxFrom<Fp32, RoundToNegInf> for u16 {
    type Err = FloatError<Fp32>;

    open spec fn approx_from_spec(src: Fp32) -> Result<u16, FloatError<Fp32>> {
        round_checked_spec::<Fp32, u16>(src, RoundMode::Floor, u16::MIN as int, u16::MAX as int)
    }

    fn approx_from(src: Fp32) -> (r: Result<u16, FloatError<Fp32>>) {
        convert_round_checked::<Fp32, u16>(src, RoundMode::Floor, u16::MIN as i128, u16::MAX as i128)
    }
}

impl ApproxFrom<Fp32, RoundToPosInf> for u16 {
    type Err = FloatError<Fp32>;

    open spec fn approx_from_spec(src: Fp32) -> Result<u16, FloatError<Fp32>> {
        round_checked_spec::<Fp32, u16>(src, RoundMode::Ceil, u16::MIN as int, u16::MAX as int)
    }

    fn approx_from(src: Fp32) -> (r: Result<u16, FloatError<Fp32>>) {
        convert_round_checked::<Fp32, u16>(src, RoundMode::Ceil, u16::MIN as i128, u16::MAX as i128)
    }
}

impl ApproxFrom<Fp32, DefaultApprox> for i32 {
    type Err = FloatError<Fp32>;

    open spec fn approx_from_spec(src: Fp32) -> Result<i32, FloatError<Fp32>> {
        trunc_incl_spec::<Fp32, i32>(src, i32::MIN as int, MAX_F32_I32 as int)
    }

    fn approx_from(src: Fp32) -> (r: Result<i32, FloatError<Fp32>>) {
        convert_trunc_incl::<Fp32, i32>(src, i32::MIN as i128, MAX_F32_I32 as i128)
    }
}

impl ApproxFrom<Fp32, RoundToZero> for i32 {
    type Err = FloatError<Fp32>;

    open spec fn approx_from_spec(src: Fp32) -> Result<i32, FloatError<Fp32>> {
        trunc_incl_spec::<Fp32, i32>(src, i32::MIN as int, MAX_F32_I32 as int)
    }

    fn approx_from(src: Fp32) -> (r: Result<i32, FloatError<Fp32>>) {
        convert_trunc_incl::<Fp32, i32>(src, i32::MIN as i128, MAX_F32_I32 as i128)
    }
}

impl ApproxFrom<Fp32, RoundToNearest> for i32 {
    type Err = FloatError<Fp32>;

    open spec fn approx_from_spec(src: Fp32) -> Result<i32, FloatError<Fp32>> {
        round_checked_spec::<Fp32, i32>(src, RoundMode::HalfAway, i32::MIN as int, MAX_F32_I32 as int)
    }

    fn approx_from(src: Fp32) -> (r: Result<i32, FloatError<Fp32>>) {
        convert_round_checked::<Fp32, i32>(src, RoundMode::HalfAway, i32::MIN as i128, MAX_F32_I32 as i128)
    }
}

impl ApproxFrom<Fp32, RoundToNegInf> for i32 {
    type Err = FloatError<Fp32>;

    open spec fn approx_from_spec(src: Fp32) -> Result<i32, FloatError<Fp32>> {
        round_checked_spec::<Fp32, i32>(src, RoundMode::Floor, i32::MIN as int, MAX_F32_I32 as int)
    }

    fn approx_from(src: Fp32) -> (r: Result<i32, FloatError<Fp32>>) {
        convert_round_checked::<Fp32, i32>(src, RoundMode::Floor, i32::MIN as i128, MAX_F32_I32 as i128)
    }
}

impl ApproxFrom<Fp32, RoundToPosInf> for i32 {
    type Err = FloatError<Fp32>;

    open spec fn approx_from_spec(src: Fp32) -> Result<i32, FloatError<Fp32>> {
        round_checked_spec::<Fp32, i32>(src, RoundMode::Ceil, i32::MIN as int, MAX_F32_I32 as int)
    }

    fn approx_from(src: Fp32) -> (r: Result<i32, FloatError<Fp32>>) {
        convert_round_checked::<Fp32, i32>(src, RoundMode::Ceil, i32::MIN as i128, MAX_F32_I32 as i128)
    }
}

impl ApproxFrom<Fp32, DefaultApprox> for i64 {
    type Err = FloatError<Fp32>;

    open spec fn approx_from_spec(src: Fp32) -> Result<i64, FloatError<Fp32>> {
        trunc_incl_spec::<Fp32, i64>(src, i64::MIN as int, MAX_F32_I64 as int)
    }

    fn approx_from(src: Fp32) -> (r: Result<i64, FloatError<Fp32>>) {
        convert_trunc_incl::<Fp32, i64>(src, i64::MIN as i128, MAX_F32_I64 as i128)
    }
}

impl ApproxFrom<Fp32, RoundToZero> for i64 {
    type Err = FloatError<Fp32>;

    open spec fn approx_from_spec(src: Fp32) -> Result<i64, FloatError<Fp32>> {
        trunc_incl_spec::<Fp32, i64>(src, i64::MIN as int, MAX_F32_I64 as int)
    }

    fn approx_from(src: Fp32) -> (r: Result<i64, FloatError<Fp32>>) {
        convert_trunc_incl::<Fp32, i64>(src, i64::MIN as i128, MAX_F32_I64 as i128)
    }
}

impl ApproxFrom<Fp32, RoundToNearest> for i64 {
    type Err = FloatError<Fp32>;

    open spec fn approx_from_spec(src: Fp32) -> Result<i64, FloatError<Fp32>> {
        round_checked_spec::<Fp32, i64>(src, RoundMode::HalfAway, i64::MIN as int, MAX_F32_I64 as int)
    }

    fn approx_from(src: Fp32) -> (r: Result<i64, FloatError<Fp32>>) {
        convert_round_checked::<Fp32, i64>(src, RoundMode::HalfAway, i64::MIN as i128, MAX_F32_I64 as i128)
    }
}

impl ApproxFrom<Fp32, RoundToNegInf> for i64 {
    type Err = FloatError<Fp32>;

    open spec fn approx_from_spec(src: Fp32) -> Result<i64, FloatError<Fp32>> {
        round_checked_spec::<Fp32, i64>(src, RoundMode::Floor, i64::MIN as int, MAX_F32_I64 as int)
    }

    fn approx_from(src: Fp32) -> (r: Result<i64, FloatError<Fp32>>) {
        convert_round_checked::<Fp32, i64>(src, RoundMode::Floor, i64::MIN as i128, MAX_F32_I64 as i128)
    }
}

impl ApproxFrom<Fp32, RoundToPosInf> for i64 {
    type Err = FloatError<Fp32>;

    open spec fn approx_from_spec(src: Fp32) -> Result<i64, FloatError<Fp32>> {
        round_checked_spec::<Fp32, i64>(src, RoundMode::Ceil, i64::MIN as int, MAX_F32_I64 as int)
    }

    fn approx_from(src: Fp32) -> (r: Result<i64, FloatError<Fp32>>) {
        convert_round_checked::<Fp32, i64>(src, RoundMode::Ceil, i64::MIN as i128, MAX_F32_I64 as i128)
    }
}

impl ApproxFrom<Fp32, DefaultApprox> for u32 {
    type Err = FloatError<Fp32>;

    open spec fn approx_from_spec(src: Fp32) -> Result<u32, FloatError<Fp32>> {
        trunc_incl_spec::<Fp32, u32>(src, 0, MAX_F32_U32 as int)
    }

    fn approx_from(src: Fp32) -> (r: Result<u32, FloatError<Fp32>>) {
        convert_trunc_incl::<Fp32, u32>(src, 0, MAX_F32_U32 as i128)
    }
}

impl ApproxFrom<Fp32, RoundToZero> for u32 {
    type Err = FloatError<Fp32>;

    open spec fn approx_from_spec(src: Fp32) -> Result<u32, FloatError<Fp32>> {
        trunc_incl_spec::<Fp32, u32>(src, 0, MAX_F32_U32 as int)
    }

    fn approx_from(src: Fp32) -> (r: Result<u32, FloatError<Fp32>>) {
        convert_trunc_incl::<Fp32, u32>(src, 0, MAX_F32_U32 as i128)
    }
}

impl ApproxFrom<Fp32, RoundToNearest> for u32 {
    type Err = FloatError<Fp32>;

    open spec fn approx_from_spec(src: Fp32) -> Result<u32, FloatError<Fp32>> {
        round_checked_spec::<Fp32, u32>(src, RoundMode::HalfAway, 0, MAX_F32_U32 as int)
    }

    fn approx_from(src: Fp32) -> (r: Result<u32, FloatError<Fp32>>) {
        convert_round_checked::<Fp32, u32>(src, RoundMode::HalfAway, 0, MAX_F32_U32 as i128)
    }
}

impl ApproxFrom<Fp32, RoundToNegInf> for u32 {
    type Err = FloatError<Fp32>;

    open spec fn approx_from_spec(src: Fp32) -> Result<u32, FloatError<Fp32>> {
        round_checked_spec::<Fp32, u32>(src, RoundMode::Floor, 0, MAX_F32_U32 as int)
    }

    fn approx_from(src: Fp32) -> (r: Result<u32, FloatError<Fp32>>) {
        convert_round_checked::<Fp32, u32>(src, RoundMode::Floor, 0, MAX_F32_U32 as i128)
    }
}

impl ApproxFrom<Fp32, RoundToPosInf> for u32 {
    type Err = FloatError<Fp32>;

    open spec fn approx_from_spec(src: Fp32) -> Result<u32, FloatError<Fp32>> {
        round_checked_spec::<Fp32, u32>(src, RoundMode::Ceil, 0, MAX_F32_U32 as int)
    }

    fn approx_from(src: Fp32) -> (r: Result<u32, FloatError<Fp32>>) {
        convert_round_checked::<Fp32, u32>(src, RoundMode::Ceil, 0, MAX_F32_U32 as i128)
    }
}

impl ApproxFrom<Fp32, DefaultApprox> for u64 {
    type Err = FloatError<Fp32>;

    open spec fn approx_from_spec(src: Fp32) -> Result<u64, FloatError<Fp32>> {
        trunc_incl_spec::<Fp32, u64>(src, 0, MAX_F32_U64 as int)
    }

    fn approx_from(src: Fp32) -> (r: Result<u64, FloatError<Fp32>>) {
        convert_trunc_incl::<Fp32, u64>(src, 0, MAX_F32_U64 as i128)
    }
}

impl ApproxFrom<Fp32, RoundToZero> for u64 {
    type Err = FloatError<Fp32>;

    open spec fn approx_from_spec(src: Fp32) -> Result<u64, FloatError<Fp32>> {
        trunc_incl_spec::<Fp32, u64>(src, 0, MAX_F32_U64 as int)
    }

    fn approx_from(src: Fp32) -> (r: Result<u64, FloatError<Fp32>>) {
        convert_trunc_incl::<Fp32, u64>(src, 0, MAX_F32_U64 as i128)
    }
}

impl ApproxFrom<Fp32, RoundToNearest> for u64 {
    type Err = FloatError<Fp32>;

    open spec fn approx_from_spec(src: Fp32) -> Result<u64, FloatError<Fp32>> {
        round_checked_spec::<Fp32, u64>(src, RoundMode::HalfAway, 0, MAX_F32_U64 as int)
    }

    fn approx_from(src: Fp32) -> (r: Result<u64, FloatError<Fp32>>) {
        convert_round_checked::<Fp32, u64>(src, RoundMode::HalfAway, 0, MAX_F32_U64 as i128)
    }
}

impl ApproxFrom<Fp32, RoundToNegInf> for u64 {
    type Err = FloatError<Fp32>;

    open spec fn approx_from_spec(src: Fp32) -> Result<u64, FloatError<Fp32>> {
        round_checked_spec::<Fp32, u64>(src, RoundMode::Floor, 0, MAX_F32_U64 as int)
    }

    fn approx_from(src: Fp32) -> (r: Result<u64, FloatError<Fp32>>) {
        convert_round_checked::<Fp32, u64>(src, RoundMode::Floor, 0, MAX_F32_U64 as i128)
    }
}

impl ApproxFrom<Fp32, RoundToPosInf> for u64 {
    type Err = FloatError<Fp32>;

    open spec fn approx_from_spec(src: Fp32) -> Result<u64, FloatError<Fp32>> {
        round_checked_spec::<Fp32, u64>(src, RoundMode::Ceil, 0, MAX_F32_U64 as int)
    }

    fn approx_from(src: Fp32) -> (r: Result<u64, FloatError<Fp32>>) {
        convert_round_checked::<Fp32, u64>(src, RoundMode::Ceil, 0, MAX_F32_U64 as i128)
    }
}

impl ApproxFrom<Fp32, DefaultApprox> for isize {
    type Err = FloatError<Fp32>;

    open spec fn approx_from_spec(src: Fp32) -> Result<isize, FloatError<Fp32>> {
        if isize::BITS == 32 {
            trunc_incl_spec::<Fp32, isize>(src, i32::MIN as int, MAX_F32_I32 as int)
        } else {
            trunc_incl_spec::<Fp32, isize>(src, i64::MIN as int, MAX_F32_I64 as int)
        }
    }

    fn approx_from(src: Fp32) -> (r: Result<isize, FloatError<Fp32>>) {
        if isize::BITS == 32 {
            convert_trunc_incl::<Fp32, isize>(src, i32::MIN as i128, MAX_F32_I32 as i128)
        } else {
            convert_trunc_incl::<Fp32, isize>(src, i64::MIN as i128, MAX_F32_I64 as i128)
        }
    }
}

impl ApproxFrom<Fp32, RoundToZero> for isize {
    type Err = FloatError<Fp32>;

    open spec fn approx_from_spec(src: Fp32) -> Result<isize, FloatError<Fp32>> {
        if isize::BITS == 32 {
            trunc_incl_spec::<Fp32, isize>(src, i32::MIN as int, MAX_F32_I32 as int)
        } else {
            trunc_incl_spec::<Fp32, isize>(src, i64::MIN as int, MAX_F32_I64 as int)
        }
    }

    fn approx_from(src: Fp32) -> (r: Result<isize, FloatError<Fp32>>) {
        if isize::BITS == 32 {
            convert_trunc_incl::<Fp32, isize>(src, i32::MIN as i128, MAX_F32_I32 as i128)
        } else {
            convert_trunc_incl::<Fp32, isize>(src, i64::MIN as i128, MAX_F32_I64 as i128)
        }
    }
}

impl ApproxFrom<Fp32, RoundToNearest> for isize {
    type Err = FloatError<Fp32>;

    open spec fn approx_from_spec(src: Fp32) -> Result<isize, FloatError<Fp32>> {
        if isize::BITS == 32 {
            round_checked_spec::<Fp32, isize>(src, RoundMode::HalfAway, i32::MIN as int, MAX_F32_I32 as int)
        } else {
            round_checked_spec::<Fp32, isize>(src, RoundMode::HalfAway, i64::MIN as int, MAX_F32_I64 as int)
        }
    }

    fn approx_from(src: Fp32) -> (r: Result<isize, FloatError<Fp32>>) {
        if isize::BITS == 32 {
            convert_round_checked::<Fp32, isize>(src, RoundMode::HalfAway, i32::MIN as i128, MAX_F32_I32 as i128)
        } else {
            convert_round_checked::<Fp32, isize>(src, RoundMode::HalfAway, i64::MIN as i128, MAX_F32_I64 as i128)
        }
    }
}

impl ApproxFrom<Fp32, RoundToNegInf> for isize {
    type Err = FloatError<Fp32>;

    open spec fn approx_from_spec(src: Fp32) -> Result<isize, FloatError<Fp32>> {
        if isize::BITS == 32 {
            round_checked_spec::<Fp32, isize>(src, RoundMode::Floor, i32::MIN as int, MAX_F32_I32 as int)
        } else {
            round_checked_spec::<Fp32, isize>(src, RoundMode::Floor, i64::MIN as int, MAX_F32_I64 as int)
        }
    }

    fn approx_from(src: Fp32) -> (r: Result<isize, FloatError<Fp32>>) {
        if isize::BITS == 32 {
            convert_round_checked::<Fp32, isize>(src, RoundMode::Floor, i32::MIN as i128, MAX_F32_I32 as i128)
        } else {
            convert_round_checked::<Fp32, isize>(src, RoundMode::Floor, i64::MIN as i128, MAX_F32_I64 as i128)
        }
    }
}

impl ApproxFrom<Fp32, RoundToPosInf> for isize {
    type Err = FloatError<Fp32>;

    open spec fn approx_from_spec(src: Fp32) -> Result<isize, FloatError<Fp32>> {
        if isize::BITS == 32 {
            round_checked_spec::<Fp32, isize>(src, RoundMode::Ceil, i32::MIN as int, MAX_F32_I32 as int)
        } else {
            round_checked_spec::<Fp32, isize>(src, RoundMode::Ceil, i64::MIN as int, MAX_F32_I64 as int)
        }
    }

    fn approx_from(src: Fp32) -> (r: Result<isize, FloatError<Fp32>>) {
        if isize::BITS == 32 {
            convert_round_checked::<Fp32, isize>(src, RoundMode::Ceil, i32::MIN as i128, MAX_F32_I32 as i128)
        } else {
            convert_round_checked::<Fp32, isize>(src, RoundMode::Ceil, i64::MIN as i128, MAX_F32_I64 as i128)
        }
    }
}

impl ApproxFrom<Fp32, DefaultApprox> for usize {
    type Err = FloatError<Fp32>;

    open spec fn approx_from_spec(src: Fp32) -> Result<usize, FloatError<Fp32>> {
        if usize::BITS == 32 {
            trunc_incl_spec::<Fp32, usize>(src, 0, MAX_F32_U32 as int)
        } else {
            trunc_incl_spec::<Fp32, usize>(src, 0, MAX_F32_U64 as int)
        }
    }

    fn approx_from(src: Fp32) -> (r: Result<usize, FloatError<Fp32>>) {
        if usize::BITS == 32 {
            convert_trunc_incl::<Fp32, usize>(src, 0, MAX_F32_U32 as i128)
        } else {
            convert_trunc_incl::<Fp32, usize>(src, 0, MAX_F32_U64 as i128)
        }
    }
}

impl ApproxFrom<Fp32, RoundToZero> for usize {
    type Err = FloatError<Fp32>;

    open spec fn approx_from_spec(src: Fp32) -> Result<usize, FloatError<Fp32>> {
        if usize::BITS == 32 {
            trunc_incl_spec::<Fp32, usize>(src, 0, MAX_F32_U32 as int)
        } else {
            trunc_incl_spec::<Fp32, usize>(src, 0, MAX_F32_U64 as int)
        }
    }

    fn approx_from(src: Fp32) -> (r: Result<usize, FloatError<Fp32>>) {
        if usize::BITS == 32 {
            convert_trunc_incl::<Fp32, usize>(src, 0, MAX_F32_U32 as i128)
        } else {
            convert_trunc_incl::<Fp32, usize>(src, 0, MAX_F32_U64 as i128)
        }
    }
}

impl ApproxFrom<Fp32, RoundToNearest> for usize {
    type Err = FloatError<Fp32>;

    open spec fn approx_from_spec(src: Fp32) -> Result<usize, FloatError<Fp32>> {
        if usize::BITS == 32 {
            round_checked_spec::<Fp32, usize>(src, RoundMode::HalfAway, 0, MAX_F32_U32 as int)
        } else {
            round_checked_spec::<Fp32, usize>(src, RoundMode::HalfAway, 0, MAX_F32_U64 as int)
        }
    }

    fn approx_from(src: Fp32) -> (r: Result<usize, FloatError<Fp32>>) {
        if usize::BITS == 32 {
            convert_round_checked::<Fp32, usize>(src, RoundMode::HalfAway, 0, MAX_F32_U32 as i128)
        } else {
            convert_round_checked::<Fp32, usize>(src, RoundMode::HalfAway, 0, MAX_F32_U64 as i128)
        }
    }
}

impl ApproxFrom<Fp32, RoundToNegInf> for usize {
    type Err = FloatError<Fp32>;

    open spec fn approx_from_spec(src: Fp32) -> Result<usize, FloatError<Fp32>> {
        if usize::BITS == 32 {
            round_checked_spec::<Fp32, usize>(src, RoundMode::Floor, 0, MAX_F32_U32 as int)
        } else {
            round_checked_spec::<Fp32, usize>(src, RoundMode::Floor, 0, MAX_F32_U64 as int)
        }
    }

    fn approx_from(src: Fp32) -> (r: Result<usize, FloatError<Fp32>>) {
        if usize::BITS == 32 {
            convert_round_checked::<Fp32, usize>(src, RoundMode::Floor, 0, MAX_F32_U32 as i128)
        } else {
            convert_round_checked::<Fp32, usize>(src, RoundMode::Floor, 0, MAX_F32_U64 as i128)
        }
    }
}

impl ApproxFrom<Fp32, RoundToPosInf> for usize {
    type Err = FloatError<Fp32>;

    open spec fn approx_from_spec(src: Fp32) -> Result<usize, FloatError<Fp32>> {
        if usize::BITS == 32 {
            round_checked_spec::<Fp32, usize>(src, RoundMode::Ceil, 0, MAX_F32_U32 as int)
        } else {
            round_checked_spec::<Fp32, usize>(src, RoundMode::Ceil, 0, MAX_F32_U64 as int)
        }
    }

    fn approx_from(src: Fp32) -> (r: Result<usize, FloatError<Fp32>>) {
        if usize::BITS == 32 {
            convert_round_checked::<Fp32, usize>(src, RoundMode::Ceil, 0, MAX_F32_U32 as i128)
        } else {
            convert_round_checked::<Fp32, usize>(src, RoundMode::Ceil, 0, MAX_F32_U64 as i128)
        }
    }
}

impl ApproxFrom<Fp64, DefaultApprox> for i8 {
    type Err = FloatError<Fp64>;

    open spec fn approx_from_spec(src: Fp64) -> Result<i8, FloatError<Fp64>> {
        trunc_excl_spec::<Fp64, i8>(src, i8::MIN - 1, i8::MAX + 1)
    }

    fn approx_from(src: Fp64) -> (r: Result<i8, FloatError<Fp64>>) {
        convert_trunc_excl::<Fp64, i8>(src, i8::MIN as i128 - 1, i8::MAX as i128 + 1)
    }
}

impl ApproxFrom<Fp64, RoundToZero> for i8 {
    type Err = FloatError<Fp64>;

    open spec fn approx_from_spec(src: Fp64) -> Result<i8, FloatError<Fp64>> {
        trunc_excl_spec::<Fp64, i8>(src, i8::MIN - 1, i8::MAX + 1)
    }

    fn approx_from(src: Fp64) -> (r: Result<i8, FloatError<Fp64>>) {
        convert_trunc_excl::<Fp64, i8>(src, i8::MIN as i128 - 1, i8::MAX as i128 + 1)
    }
}

impl ApproxFrom<Fp64, RoundToNearest> for i8 {
    type Err = FloatError<Fp64>;

    open spec fn approx_from_spec(src: Fp64) -> Result<i8, FloatError<Fp64>> {
        round_checked_spec::<Fp64, i8>(src, RoundMode::HalfAway, i8::MIN as int, i8::MAX as int)
    }

    fn approx_from(src: Fp64) -> (r: Result<i8, FloatError<Fp64>>) {
        convert_round_checked::<Fp64, i8>(src, RoundMode::HalfAway, i8::MIN as i128, i8::MAX as i128)
    }
}

impl ApproxFrom<Fp64, RoundToNegInf> for i8 {
    type Err = FloatError<Fp64>;

    open spec fn approx_from_spec(src: Fp64) -> Result<i8, FloatError<Fp64>> {
        round_checked_spec::<Fp64, i8>(src, RoundMode::Floor, i8::MIN as int, i8::MAX as int)
    }

    fn approx_from(src: Fp64) -> (r: Result<i8, FloatError<Fp64>>) {
        convert_round_checked::<Fp64, i8>(src, RoundMode::Floor, i8::MIN as i128, i8::MAX as i128)
    }
}

impl ApproxFrom<Fp64, RoundToPosInf> for i8 {
    type Err = FloatError<Fp64>;

    open spec fn approx_from_spec(src: Fp64) -> Result<i8, FloatError<Fp64>> {
        round_checked_spec::<Fp64, i8>(src, RoundMode::Ceil, i8::MIN as int, i8::MAX as int)
    }

    fn approx_from(src: Fp64) -> (r: Result<i8, FloatError<Fp64>>) {
        convert_round_checked::<Fp64, i8>(src, RoundMode::Ceil, i8::MIN as i128, i8::MAX as i128)
    }
}

impl ApproxFrom<Fp64, DefaultApprox> for i16 {
    type Err = FloatError<Fp64>;

    open spec fn approx_from_spec(src: Fp64) -> Result<i16, FloatError<Fp64>> {
        trunc_excl_spec::<Fp64, i16>(src, i16::MIN - 1, i16::MAX + 1)
    }

    fn approx_from(src: Fp64) -> (r: Result<i16, FloatError<Fp64>>) {
        convert_trunc_excl::<Fp64, i16>(src, i16::MIN as i128 - 1, i16::MAX as i128 + 1)
    }
}

impl ApproxFrom<Fp64, RoundToZero> for i16 {
    type Err = FloatError<Fp64>;

    open spec fn approx_from_spec(src: Fp64) -> Result<i16, FloatError<Fp64>> {
        trunc_excl_spec::<Fp64, i16>(src, i16::MIN - 1, i16::MAX + 1)
    }

    fn approx_from(src: Fp64) -> (r: Result<i16, FloatError<Fp64>>) {
        convert_trunc_excl::<Fp64, i16>(src, i16::MIN as i128 - 1, i16::MAX as i128 + 1)
    }
}

impl ApproxFrom<Fp64, RoundToNearest> for i16 {
    type Err = FloatError<Fp64>;

    open spec fn approx_from_spec(src: Fp64) -> Result<i16, FloatError<Fp64>> {
        round_checked_spec::<Fp64, i16>(src, RoundMode::HalfAway, i16::MIN as int, i16::MAX as int)
    }

    fn approx_from(src: Fp64) -> (r: Result<i16, FloatError<Fp64>>) {
        convert_round_checked::<Fp64, i16>(src, RoundMode::HalfAway, i16::MIN as i128, i16::MAX as i128)
    }
}

impl ApproxFrom<Fp64, RoundToNegInf> for i16 {
    type Err = FloatError<Fp64>;

    open spec fn approx_from_spec(src: Fp64) -> Result<i16, FloatError<Fp64>> {
        round_checked_spec::<Fp64, i16>(src, RoundMode::Floor, i16::MIN as int, i16::MAX as int)
    }

    fn approx_from(src: Fp64) -> (r: Result<i16, FloatError<Fp64>>) {
        convert_round_checked::<Fp64, i16>(src, RoundMode::Floor, i16::MIN as i128, i16::MAX as i128)
    }
}

impl ApproxFrom<Fp64, RoundToPosInf> for i16 {
    type Err = FloatError<Fp64>;

    open spec fn approx_from_spec(src: Fp64) -> Result<i16, FloatError<Fp64>> {
        round_checked_spec::<Fp64, i16>(src, RoundMode::Ceil, i16::MIN as int, i16::MAX as int)
    }

    fn approx_from(src: Fp64) -> (r: Result<i16, FloatError<Fp64>>) {
        convert_round_checked::<Fp64, i16>(src, RoundMode::Ceil, i16::MIN as i128, i16::MAX as i128)
    }
}

impl ApproxFrom<Fp64, DefaultApprox> for i32 {
    type Err = FloatError<Fp64>;

    open spec fn approx_from_spec(src: Fp64) -> Result<i32, FloatError<Fp64>> {
        trunc_excl_spec::<Fp64, i32>(src, i32::MIN - 1, i32::MAX + 1)
    }

    fn approx_from(src: Fp64) -> (r: Result<i32, FloatError<Fp64>>) {
        convert_trunc_excl::<Fp64, i32>(src, i32::MIN as i128 - 1, i32::MAX as i128 + 1)
    }
}

impl ApproxFrom<Fp64, RoundToZero> for i32 {
    type Err = FloatError<Fp64>;

    open spec fn approx_from_spec(src: Fp64) -> Result<i32, FloatError<Fp64>> {
        trunc_excl_spec::<Fp64, i32>(src, i32::MIN - 1, i32::MAX + 1)
    }

    fn approx_from(src: Fp64) -> (r: Result<i32, FloatError<Fp64>>) {
        convert_trunc_excl::<Fp64, i32>(src, i32::MIN as i128 - 1, i32::MAX as i128 + 1)
    }
}

impl ApproxFrom<Fp64, RoundToNearest> for i32 {
    type Err = FloatError<Fp64>;

    open spec fn approx_from_spec(src: Fp64) -> Result<i32, FloatError<Fp64>> {
        round_checked_spec::<Fp64, i32>(src, RoundMode::HalfAway, i32::MIN as int, i32::MAX as int)
    }

    fn approx_from(src: Fp64) -> (r: Result<i32, FloatError<Fp64>>) {
        convert_round_checked::<Fp64, i32>(src, RoundMode::HalfAway, i32::MIN as i128, i32::MAX as i128)
    }
}

impl ApproxFrom<Fp64, RoundToNegInf> for i32 {
    type Err = FloatError<Fp64>;

    open spec fn approx_from_spec(src: Fp64) -> Result<i32, FloatError<Fp64>> {
        round_checked_spec::<Fp64, i32>(src, RoundMode::Floor, i32::MIN as int, i32::MAX as int)
    }

    fn approx_from(src: Fp64) -> (r: Result<i32, FloatError<Fp64>>) {
        convert_round_checked::<Fp64, i32>(src, RoundMode::Floor, i32::MIN as i128, i32::MAX as i128)
    }
}

impl ApproxFrom<Fp64, RoundToPosInf> for i32 {
    type Err = FloatError<Fp64>;

    open spec fn approx_from_spec(src: Fp64) -> Result<i32, FloatError<Fp64>> {
        round_checked_spec::<Fp64, i32>(src, RoundMode::Ceil, i32::MIN as int, i32::MAX as int)
    }

    fn approx_from(src: Fp64) -> (r: Result<i32, FloatError<Fp64>>) {
        convert_round_checked::<Fp64, i32>(src, RoundMode::Ceil, i32::MIN as i128, i32::MAX as i128)
    }
}

impl ApproxFrom<Fp64, DefaultApprox> for u8 {
    type Err = FloatError<Fp64>;

    open spec fn approx_from_spec(src: Fp64) -> Result<u8, FloatError<Fp64>> {
        trunc_excl_spec::<Fp64, u8>(src, u8::MIN - 1, u8::MAX + 1)
    }

    fn approx_from(src: Fp64) -> (r: Result<u8, FloatError<Fp64>>) {
        convert_trunc_excl::<Fp64, u8>(src, u8::MIN as i128 - 1, u8::MAX as i128 + 1)
    }
}

impl ApproxFrom<Fp64, RoundToZero> for u8 {
    type Err = FloatError<Fp64>;

    open spec fn approx_from_spec(src: Fp64) -> Result<u8, FloatError<Fp64>> {
        trunc_excl_spec::<Fp64, u8>(src, u8::MIN - 1, u8::MAX + 1)
    }

    fn approx_from(src: Fp64) -> (r: Result<u8, FloatError<Fp64>>) {
        convert_trunc_excl::<Fp64, u8>(src, u8::MIN as i128 - 1, u8::MAX as i128 + 1)
    }
}

impl ApproxFrom<Fp64, RoundToNearest> for u8 {
    type Err = FloatError<Fp64>;

    open spec fn approx_from_spec(src: Fp64) -> Result<u8, FloatError<Fp64>> {
        round_checked_spec::<Fp64, u8>(src, RoundMode::HalfAway, u8::MIN as int, u8::MAX as int)
    }

    fn approx_from(src: Fp64) -> (r: Result<u8, FloatError<Fp64>>) {
        convert_round_checked::<Fp64, u8>(src, RoundMode::HalfAway, u8::MIN as i128, u8::MAX as i128)
    }
}

impl ApproxFrom<Fp64, RoundToNegInf> for u8 {
    type Err = FloatError<Fp64>;

    open spec fn approx_from_spec(src: Fp64) -> Result<u8, FloatError<Fp64>> {
        round_checked_spec::<Fp64, u8>(src, RoundMode::Floor, u8::MIN as int, u8::MAX as int)
    }

    fn approx_from(src: Fp64) -> (r: Result<u8, FloatError<Fp64>>) {
        convert_round_checked::<Fp64, u8>(src, RoundMode::Floor, u8::MIN as i128, u8::MAX as i128)
    }
}

impl ApproxFrom<Fp64, RoundToPosInf> for u8 {
    type Err = FloatError<Fp64>;

    open spec fn approx_from_spec(src: Fp64) -> Result<u8, FloatError<Fp64>> {
        round_checked_spec::<Fp64, u8>(src, RoundMode::Ceil, u8::MIN as int, u8::MAX as int)
    }

    fn approx_from(src: Fp64) -> (r: Result<u8, FloatError<Fp64>>) {
        convert_round_checked::<Fp64, u8>(src, RoundMode::Ceil, u8::MIN as i128, u8::MAX as i128)
    }
}

impl ApproxFrom<Fp64, DefaultApprox> for u16 {
    type Err = FloatError<Fp64>;

    open spec fn approx_from_spec(src: Fp64) -> Result<u16, FloatError<Fp64>> {
        trunc_excl_spec::<Fp64, u16>(src, u16::MIN - 1, u16::MAX + 1)
    }

    fn approx_from(src: Fp64) -> (r: Result<u16, FloatError<Fp64>>) {
        convert_trunc_excl::<Fp64, u16>(src, u16::MIN as i128 - 1, u16::MAX as i128 + 1)
    }
}

impl ApproxFrom<Fp64, RoundToZero> for u16 {
    type Err = FloatError<Fp64>;

    open spec fn approx_from_spec(src: Fp64) -> Result<u16, FloatError<Fp64>> {
        trunc_excl_spec::<Fp64, u16>(src, u16::MIN - 1, u16::MAX + 1)
    }

    fn approx_from(src: Fp64) -> (r: Result<u16, FloatError<Fp64>>) {
        convert_trunc_excl::<Fp64, u16>(src, u16::MIN as i128 - 1, u16::MAX as i128 + 1)
    }
}

impl ApproxFrom<Fp64, RoundToNearest> for u16 {
    type Err = FloatError<Fp64>;

    open spec fn approx_from_spec(src: Fp64) -> Result<u16, FloatError<Fp64>> {
        round_checked_spec::<Fp64, u16>(src, RoundMode::HalfAway, u16::MIN as int, u16::MAX as int)
    }

    fn approx_from(src: Fp64) -> (r: Result<u16, FloatError<Fp64>>) {
        convert_round_checked::<Fp64, u16>(src, RoundMode::HalfAway, u16::MIN as i128, u16::MAX as i128)
    }
}

impl ApproxFrom<Fp64, RoundToNegInf> for u16 {
    type Err = FloatError<Fp64>;

    open spec fn approx_from_spec(src: Fp64) -> Result<u16, FloatError<Fp64>> {
        round_checked_spec::<Fp64, u16>(src, RoundMode::Floor, u16::MIN as int, u16::MAX as int)
    }

    fn approx_from(src: Fp64) -> (r: Result<u16, FloatError<Fp64>>) {
        convert_round_checked::<Fp64, u16>(src, RoundMode::Floor, u16::MIN as i128, u16::MAX as i128)
    }
}

impl ApproxFrom<Fp64, RoundToPosInf> for u16 {
    type Err = FloatError<Fp64>;

    open spec fn approx_from_spec(src: Fp64) -> Result<u16, FloatError<Fp64>> {
        round_checked_spec::<Fp64, u16>(src, RoundMode::Ceil, u16::MIN as int, u16::MAX as int)
    }

    fn approx_from(src: Fp64) -> (r: Result<u16, FloatError<Fp64>>) {
        convert_round_checked::<Fp64, u16>(src, RoundMode::Ceil, u16::MIN as i128, u16::MAX as i128)
    }
}

impl ApproxFrom<Fp64, DefaultApprox> for u32 {
    type Err = FloatError<Fp64>;

    open spec fn approx_from_spec(src: Fp64) -> Result<u32, FloatError<Fp64>> {
        trunc_excl_spec::<Fp64, u32>(src, u32::MIN - 1, u32::MAX + 1)
    }

    fn approx_from(src: Fp64) -> (r: Result<u32, FloatError<Fp64>>) {
        convert_trunc_excl::<Fp64, u32>(src, u32::MIN as i128 - 1, u32::MAX as i128 + 1)
    }
}

impl ApproxFrom<Fp64, RoundToZero> for u32 {
    type Err = FloatError<Fp64>;

    open spec fn approx_from_spec(src: Fp64) -> Result<u32, FloatError<Fp64>> {
        trunc_excl_spec::<Fp64, u32>(src, u32::MIN - 1, u32::MAX + 1)
    }

    fn approx_from(src: Fp64) -> (r: Result<u32, FloatError<Fp64>>) {
        convert_trunc_excl::<Fp64, u32>(src, u32::MIN as i128 - 1, u32::MAX as i128 + 1)
    }
}

impl ApproxFrom<Fp64, RoundToNearest> for u32 {
    type Err = FloatError<Fp64>;

    open spec fn approx_from_spec(src: Fp64) -> Result<u32, FloatError<Fp64>> {
        round_checked_spec::<Fp64, u32>(src, RoundMode::HalfAway, u32::MIN as int, u32::MAX as int)
    }

    fn approx_from(src: Fp64) -> (r: Result<u32, FloatError<Fp64>>) {
        convert_round_checked::<Fp64, u32>(src, RoundMode::HalfAway, u32::MIN as i128, u32::MAX as i128)
    }
}

impl ApproxFrom<Fp64, RoundToNegInf> for u32 {
    type Err = FloatError<Fp64>;

    open spec fn approx_from_spec(src: Fp64) -> Result<u32, FloatError<Fp64>> {
        round_checked_spec::<Fp64, u32>(src, RoundMode::Floor, u32::MIN as int, u32::MAX as int)
    }

    fn approx_from(src: Fp64) -> (r: Result<u32, FloatError<Fp64>>) {
        convert_round_checked::<Fp64, u32>(src, RoundMode::Floor, u32::MIN as i128, u32::MAX as i128)
    }
}

impl ApproxFrom<Fp64, RoundToPosInf> for u32 {
    type Err = FloatError<Fp64>;

    open spec fn approx_from_spec(src: Fp64) -> Result<u32, FloatError<Fp64>> {
        round_checked_spec::<Fp64, u32>(src, RoundMode::Ceil, u32::MIN as int, u32::MAX as int)
    }

    fn approx_from(src: Fp64) -> (r: Result<u32, FloatError<Fp64>>) {
        convert_round_checked::<Fp64, u32>(src, RoundMode::Ceil, u32::MIN as i128, u32::MAX as i128)
    }
}

impl ApproxFrom<Fp64, DefaultApprox> for i64 {
    type Err = FloatError<Fp64>;

    open spec fn approx_from_spec(src: Fp64) -> Result<i64, FloatError<Fp64>> {
        trunc_incl_spec::<Fp64, i64>(src, i64::MIN as int, MAX_F64_I64 as int)
    }

    fn approx_from(src: Fp64) -> (r: Result<i64, FloatError<Fp64>>) {
        convert_trunc_incl::<Fp64, i64>(src, i64::MIN as i128, MAX_F64_I64 as i128)
    }
}

impl ApproxFrom<Fp64, RoundToZero> for i64 {
    type Err = FloatError<Fp64>;

    open spec fn approx_from_spec(src: Fp64) -> Result<i64, FloatError<Fp64>> {
        trunc_incl_spec::<Fp64, i64>(src, i64::MIN as int, MAX_F64_I64 as int)
    }

    fn approx_from(src: Fp64) -> (r: Result<i64, FloatError<Fp64>>) {
        convert_trunc_incl::<Fp64, i64>(src, i64::MIN as i128, MAX_F64_I64 as i128)
    }
}

impl ApproxFrom<Fp64, RoundToNearest> for i64 {
    type Err = FloatError<Fp64>;

    open spec fn approx_from_spec(src: Fp64) -> Result<i64, FloatError<Fp64>> {
        round_checked_spec::<Fp64, i64>(src, RoundMode::HalfAway, i64::MIN as int, MAX_F64_I64 as int)
    }

    fn approx_from(src: Fp64) -> (r: Result<i64, FloatError<Fp64>>) {
        convert_round_checked::<Fp64, i64>(src, RoundMode::HalfAway, i64::MIN as i128, MAX_F64_I64 as i128)
    }
}

impl ApproxFrom<Fp64, RoundToNegInf> for i64 {
    type Err = FloatError<Fp64>;

    open spec fn approx_from_spec(src: Fp64) -> Result<i64, FloatError<Fp64>> {
        round_checked_spec::<Fp64, i64>(src, RoundMode::Floor, i64::MIN as int, MAX_F64_I64 as int)
    }

    fn approx_from(src: Fp64) -> (r: Result<i64, FloatError<Fp64>>) {
        convert_round_checked::<Fp64, i64>(src, RoundMode::Floor, i64::MIN as i128, MAX_F64_I64 as i128)
    }
}

impl ApproxFrom<Fp64, RoundToPosInf> for i64 {
    type Err = FloatError<Fp64>;

    open spec fn approx_from_spec(src: Fp64) -> Result<i64, FloatError<Fp64>> {
        round_checked_spec::<Fp64, i64>(src, RoundMode::Ceil, i64::MIN as int, MAX_F64_I64 as int)
    }

    fn approx_from(src: Fp64) -> (r: Result<i64, FloatError<Fp64>>) {
        convert_round_checked::<Fp64, i64>(src, RoundMode::Ceil, i64::MIN as i128, MAX_F64_I64 as i128)
    }
}

impl ApproxFrom<Fp64, DefaultApprox> for u64 {
    type Err = FloatError<Fp64>;

    open spec fn approx_from_spec(src: Fp64) -> Result<u64, FloatError<Fp64>> {
        trunc_incl_spec::<Fp64, u64>(src, 0, MAX_F64_U64 as int)
    }

    fn approx_from(src: Fp64) -> (r: Result<u64, FloatError<Fp64>>) {
        convert_trunc_incl::<Fp64, u64>(src, 0, MAX_F64_U64 as i128)
    }
}

impl ApproxFrom<Fp64, RoundToZero> for u64 {
    type Err = FloatError<Fp64>;

    open spec fn approx_from_spec(src: Fp64) -> Result<u64, FloatError<Fp64>> {
        trunc_incl_spec::<Fp64, u64>(src, 0, MAX_F64_U64 as int)
    }

    fn approx_from(src: Fp64) -> (r: Result<u64, FloatError<Fp64>>) {
        convert_trunc_incl::<Fp64, u64>(src, 0, MAX_F64_U64 as i128)
    }
}

impl ApproxFrom<Fp64, RoundToNearest> for u64 {
    type Err = FloatError<Fp64>;

    open spec fn approx_from_spec(src: Fp64) -> Result<u64, FloatError<Fp64>> {
        round_checked_spec::<Fp64, u64>(src, RoundMode::HalfAway, 0, MAX_F64_U64 as int)
    }

    fn approx_from(src: Fp64) -> (r: Result<u64, FloatError<Fp64>>) {
        convert_round_checked::<Fp64, u64>(src, RoundMode::HalfAway, 0, MAX_F64_U64 as i128)
    }
}

impl ApproxFrom<Fp64, RoundToNegInf> for u64 {
    type Err = FloatError<Fp64>;

    open spec fn approx_from_spec(src: Fp64) -> Result<u64, FloatError<Fp64>> {
        round_checked_spec::<Fp64, u64>(src, RoundMode::Floor, 0, MAX_F64_U64 as int)
    }

    fn approx_from(src: Fp64) -> (r: Result<u64, FloatError<Fp64>>) {
        convert_round_checked::<Fp64, u64>(src, RoundMode::Floor, 0, MAX_F64_U64 as i128)
    }
}

impl ApproxFrom<Fp64, RoundToPosInf> for u64 {
    type Err = FloatError<Fp64>;

    open spec fn approx_from_spec(src: Fp64) -> Result<u64, FloatError<Fp64>> {
        round_checked_spec::<Fp64, u64>(src, RoundMode::Ceil, 0, MAX_F64_U64 as int)
    }

    fn approx_from(src: Fp64) -> (r: Result<u64, FloatError<Fp64>>) {
        convert_round_checked::<Fp64, u64>(src, RoundMode::Ceil, 0, MAX_F64_U64 as i128)
    }
}

impl ApproxFrom<Fp64, DefaultApprox> for isize {
    type Err = FloatError<Fp64>;

    open spec fn approx_from_spec(src: Fp64) -> Result<isize, FloatError<Fp64>> {
        if isize::BITS == 32 {
            trunc_excl_spec::<Fp64, isize>(src, isize::MIN - 1, isize::MAX + 1)
        } else {
            trunc_incl_spec::<Fp64, isize>(src, i64::MIN as int, MAX_F64_I64 as int)
        }
    }

    fn approx_from(src: Fp64) -> (r: Result<isize, FloatError<Fp64>>) {
        if isize::BITS == 32 {
            convert_trunc_excl::<Fp64, isize>(src, isize::MIN as i128 - 1, isize::MAX as i128 + 1)
        } else {
            convert_trunc_incl::<Fp64, isize>(src, i64::MIN as i128, MAX_F64_I64 as i128)
        }
    }
}

impl ApproxFrom<Fp64, RoundToZero> for isize {
    type Err = FloatError<Fp64>;

    open spec fn approx_from_spec(src: Fp64) -> Result<isize, FloatError<Fp64>> {
        if isize::BITS == 32 {
            trunc_excl_spec::<Fp64, isize>(src, isize::MIN - 1, isize::MAX + 1)
        } else {
            trunc_incl_spec::<Fp64, isize>(src, i64::MIN as int, MAX_F64_I64 as int)
        }
    }

    fn approx_from(src: Fp64) -> (r: Result<isize, FloatError<Fp64>>) {
        if isize::BITS == 32 {
            convert_trunc_excl::<Fp64, isize>(src, isize::MIN as i128 - 1, isize::MAX as i128 + 1)
        } else {
            convert_trunc_incl::<Fp64, isize>(src, i64::MIN as i128, MAX_F64_I64 as i128)
        }
    }
}

impl ApproxFrom<Fp64, RoundToNearest> for isize {
    type Err = FloatError<Fp64>;

    open spec fn approx_from_spec(src: Fp64) -> Result<isize, FloatError<Fp64>> {
        if isize::BITS == 32 {
            round_checked_spec::<Fp64, isize>(src, RoundMode::HalfAway, isize::MIN as int, isize::MAX as int)
        } else {
            round_checked_spec::<Fp64, isize>(src, RoundMode::HalfAway, i64::MIN as int, MAX_F64_I64 as int)
        }
    }

    fn approx_from(src: Fp64) -> (r: Result<isize, FloatError<Fp64>>) {
        if isize::BITS == 32 {
            convert_round_checked::<Fp64, isize>(src, RoundMode::HalfAway, isize::MIN as i128, isize::MAX as i128)
        } else {
            convert_round_checked::<Fp64, isize>(src, RoundMode::HalfAway, i64::MIN as i128, MAX_F64_I64 as i128)
        }
    }
}

impl ApproxFrom<Fp64, RoundToNegInf> for isize {
    type Err = FloatError<Fp64>;

    open spec fn approx_from_spec(src: Fp64) -> Result<isize, FloatError<Fp64>> {
        if isize::BITS == 32 {
            round_checked_spec::<Fp64, isize>(src, RoundMode::Floor, isize::MIN as int, isize::MAX as int)
        } else {
            round_checked_spec::<Fp64, isize>(src, RoundMode::Floor, i64::MIN as int, MAX_F64_I64 as int)
        }
    }

    fn approx_from(src: Fp64) -> (r: Result<isize, FloatError<Fp64>>) {
        if isize::BITS == 32 {
            convert_round_checked::<Fp64, isize>(src, RoundMode::Floor, isize::MIN as i128, isize::MAX as i128)
        } else {
            convert_round_checked::<Fp64, isize>(src, RoundMode::Floor, i64::MIN as i128, MAX_F64_I64 as i128)
        }
    }
}

impl ApproxFrom<Fp64, RoundToPosInf> for isize {
    type Err = FloatError<Fp64>;

    open spec fn approx_from_spec(src: Fp64) -> Result<isize, FloatError<Fp64>> {
        if isize::BITS == 32 {
            round_checked_spec::<Fp64, isize>(src, RoundMode::Ceil, isize::MIN as int, isize::MAX as int)
        } else {
            round_checked_spec::<Fp64, isize>(src, RoundMode::Ceil, i64::MIN as int, MAX_F64_I64 as int)
        }
    }

    fn approx_from(src: Fp64) -> (r: Result<isize, FloatError<Fp64>>) {
        if isize::BITS == 32 {
            convert_round_checked::<Fp64, isize>(src, RoundMode::Ceil, isize::MIN as i128, isize::MAX as i128)
        } else {
            convert_round_checked::<Fp64, isize>(src, RoundMode::Ceil, i64::MIN as i128, MAX_F64_I64 as i128)
        }
    }
}

impl ApproxFrom<Fp64, DefaultApprox> for usize {
    type Err = FloatError<Fp64>;

    open spec fn approx_from_spec(src: Fp64) -> Result<usize, FloatError<Fp64>> {
        if usize::BITS == 32 {
            trunc_excl_spec::<Fp64, usize>(src, usize::MIN - 1, usize::MAX + 1)
        } else {
            trunc_incl_spec::<Fp64, usize>(src, 0, MAX_F64_U64 as int)
        }
    }

    fn approx_from(src: Fp64) -> (r: Result<usize, FloatError<Fp64>>) {
        if usize::BITS == 32 {
            convert_trunc_excl::<Fp64, usize>(src, usize::MIN as i128 - 1, usize::MAX as i128 + 1)
        } else {
            convert_trunc_incl::<Fp64, usize>(src, 0, MAX_F64_U64 as i128)
        }
    }
}

impl ApproxFrom<Fp64, RoundToZero> for usize {
    type Err = FloatError<Fp64>;

    open spec fn approx_from_spec(src: Fp64) -> Result<usize, FloatError<Fp64>> {
        if usize::BITS == 32 {
            trunc_excl_spec::<Fp64, usize>(src, usize::MIN - 1, usize::MAX + 1)
        } else {
            trunc_incl_spec::<Fp64, usize>(src, 0, MAX_F64_U64 as int)
        }
    }

    fn approx_from(src: Fp64) -> (r: Result<usize, FloatError<Fp64>>) {
        if usize::BITS == 32 {
            convert_trunc_excl::<Fp64, usize>(src, usize::MIN as i128 - 1, usize::MAX as i128 + 1)
        } else {
            convert_trunc_incl::<Fp64, usize>(src, 0, MAX_F64_U64 as i128)
        }
    }
}

impl ApproxFrom<Fp64, RoundToNearest> for usize {
    type Err = FloatError<Fp64>;

    open spec fn approx_from_spec(src: Fp64) -> Result<usize, FloatError<Fp64>> {
        if usize::BITS == 32 {
            round_checked_spec::<Fp64, usize>(src, RoundMode::HalfAway, usize::MIN as int, usize::MAX as int)
        } else {
            round_checked_spec::<Fp64, usize>(src, RoundMode::HalfAway, 0, MAX_F64_U64 as int)
        }
    }

    fn approx_from(src: Fp64) -> (r: Result<usize, FloatError<Fp64>>) {
        if usize::BITS == 32 {
            convert_round_checked::<Fp64, usize>(src, RoundMode::HalfAway, usize::MIN as i128, usize::MAX as i128)
        } else {
            convert_round_checked::<Fp64, usize>(src, RoundMode::HalfAway, 0, MAX_F64_U64 as i128)
        }
    }
}

impl ApproxFrom<Fp64, RoundToNegInf> for usize {
    type Err = FloatError<Fp64>;

    open spec fn approx_from_spec(src: Fp64) -> Result<usize, FloatError<Fp64>> {
        if usize::BITS == 32 {
            round_checked_spec::<Fp64, usize>(src, RoundMode::Floor, usize::MIN as int, usize::MAX as int)
        } else {
            round_checked_spec::<Fp64, usize>(src, RoundMode::Floor, 0, MAX_F64_U64 as int)
        }
    }

    fn approx_from(src: Fp64) -> (r: Result<usize, FloatError<Fp64>>) {
        if usize::BITS == 32 {
            convert_round_checked::<Fp64, usize>(src, RoundMode::Floor, usize::MIN as i128, usize::MAX as i128)
        } else {
            convert_round_checked::<Fp64, usize>(src, RoundMode::Floor, 0, MAX_F64_U64 as i128)
        }
    }
}

impl ApproxFrom<Fp64, RoundToPosInf> for usize {
    type Err = FloatError<Fp64>;

    open spec fn approx_from_spec(src: Fp64) -> Result<usize, FloatError<Fp64>> {
        if usize::BITS == 32 {
            round_checked_spec::<Fp64, usize>(src, RoundMode::Ceil, usize::MIN as int, usize::MAX as int)
        } else {
            round_checked_spec::<Fp64, usize>(src, RoundMode::Ceil, 0, MAX_F64_U64 as int)
        }
    }

    fn approx_from(src: Fp64) -> (r: Result<usize, FloatError<Fp64>>) {
        if usize::BITS == 32 {
            convert_round_checked::<Fp64, usize>(src, RoundMode::Ceil, usize::MIN as i128, usize::MAX as i128)
        } else {
            convert_round_checked::<Fp64, usize>(src, RoundMode::Ceil, 0, MAX_F64_U64 as i128)
        }
    }
}

} // verus!
