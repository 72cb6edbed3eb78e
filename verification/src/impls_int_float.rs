//! Conversion rules from the integer types into the floating-point
//! formats.
//!
//! A source type whose whole range the format represents exactly converts
//! totally; a wider source is bounded to the format's contiguous integer
//! range (`±2^24` for single precision, `±2^53` for double) and rejected
//! outside it with the matching overflow error.  Within the bound the
//! conversion is exact — nothing is rounded — so the rule under
//! [`DefaultApprox`] is the same as the exact rule.
//!
//! The pointer-sized sources use the bounds that are correct at both
//! supported pointer widths; at a width where a bound cannot be exceeded
//! the corresponding error simply never occurs.

use vstd::prelude::*;

use crate::errors::{NoError, PosOverflow, RangeError};
use crate::fp::{Fp32, Fp64};
use crate::fp_from_int::{
    convert_bounded_fp32, convert_bounded_fp64, convert_exact_fp32, convert_exact_fp64,
    convert_pos_bounded_fp32, convert_pos_bounded_fp64, fp32_bounded_spec, fp32_exact_spec,
    fp32_pos_bounded_spec, fp64_bounded_spec, fp64_exact_spec, fp64_pos_bounded_spec,
};
use crate::traits::{ApproxFrom, DefaultApprox, ValueFrom};

verus! {

impl ValueFrom<i8> for Fp32 {
    type Err = NoError;

    open spec fn value_from_spec(src: i8) -> Result<Fp32, NoError> {
        fp32_exact_spec::<i8>(src)
    }

    fn value_from(src: i8) -> (r: Result<Fp32, NoError>) {
        convert_exact_fp32::<i8>(src)
    }
}

impl ApproxFrom<i8, DefaultApprox> for Fp32 {
    type Err = NoError;

    open spec fn approx_from_spec(src: i8) -> Result<Fp32, NoError> {
        fp32_exact_spec::<i8>(src)
    }

    fn approx_from(src: i8) -> (r: Result<Fp32, NoError>) {
        convert_exact_fp32::<i8>(src)
    }
}

impl ValueFrom<i16> for Fp32 {
    type Err = NoError;

    open spec fn value_from_spec(src: i16) -> Result<Fp32, NoError> {
        fp32_exact_spec::<i16>(src)
    }

    fn value_from(src: i16) -> (r: Result<Fp32, NoError>) {
        convert_exact_fp32::<i16>(src)
    }
}

impl ApproxFrom<i16, DefaultApprox> for Fp32 {
    type Err = NoError;

    open spec fn approx_from_spec(src: i16) -> Result<Fp32, NoError> {
        fp32_exact_spec::<i16>(src)
    }

    fn approx_from(src: i16) -> (r: Result<Fp32, NoError>) {
        convert_exact_fp32::<i16>(src)
    }
}

impl ValueFrom<u8> for Fp32 {
    type Err = NoError;

    open spec fn value_from_spec(src: u8) -> Result<Fp32, NoError> {
        fp32_exact_spec::<u8>(src)
    }

    fn value_from(src: u8) -> (r: Result<Fp32, NoError>) {
        convert_exact_fp32::<u8>(src)
    }
}

impl ApproxFrom<u8, DefaultApprox> for Fp32 {
    type Err = NoError;

    open spec fn approx_from_spec(src: u8) -> Result<Fp32, NoError> {
        fp32_exact_spec::<u8>(src)
    }

    fn approx_from(src: u8) -> (r: Result<Fp32, NoError>) {
        convert_exact_fp32::<u8>(src)
    }
}

impl ValueFrom<u16> for Fp32 {
    type Err = NoError;

    open spec fn value_from_spec(src: u16) -> Result<Fp32, NoError> {
        fp32_exact_spec::<u16>(src)
    }

    fn value_from(src: u16) -> (r: Result<Fp32, NoError>) {
        convert_exact_fp32::<u16>(src)
    }
}

impl ApproxFrom<u16, DefaultApprox> for Fp32 {
    type Err = NoError;

    open spec fn approx_from_spec(src: u16) -> Result<Fp32, NoError> {
        fp32_exact_spec::<u16>(src)
    }

    fn approx_from(src: u16) -> (r: Result<Fp32, NoError>) {
        convert_exact_fp32::<u16>(src)
    }
}

impl ValueFrom<i32> for Fp32 {
    type Err = RangeError<i32>;

    open spec fn value_from_spec(src: i32) -> Result<Fp32, RangeError<i32>> {
        fp32_bounded_spec::<i32>(src, -16777216, 16777216)
    }

    fn value_from(src: i32) -> (r: Result<Fp32, RangeError<i32>>) {
        convert_bounded_fp32::<i32>(src, 16777216)
    }
}

impl ApproxFrom<i32, DefaultApprox> for Fp32 {
    type Err = RangeError<i32>;

    open spec fn approx_from_spec(src: i32) -> Result<Fp32, RangeError<i32>> {
        fp32_bounded_spec::<i32>(src, -16777216, 16777216)
    }

    fn approx_from(src: i32) -> (r: Result<Fp32, RangeError<i32>>) {
        convert_bounded_fp32::<i32>(src, 16777216)
    }
}

impl ValueFrom<i64> for Fp32 {
    type Err = RangeError<i64>;

    open spec fn value_from_spec(src: i64) -> Result<Fp32, RangeError<i64>> {
        fp32_bounded_spec::<i64>(src, -16777216, 16777216)
    }

    fn value_from(src: i64) -> (r: Result<Fp32, RangeError<i64>>) {
        convert_bounded_fp32::<i64>(src, 16777216)
    }
}

impl ApproxFrom<i64, DefaultApprox> for Fp32 {
    type Err = RangeError<i64>;

    open spec fn approx_from_spec(src: i64) -> Result<Fp32, RangeError<i64>> {
        fp32_bounded_spec::<i64>(src, -16777216, 16777216)
    }

    fn approx_from(src: i64) -> (r: Result<Fp32, RangeError<i64>>) {
        convert_bounded_fp32::<i64>(src, 16777216)
    }
}

impl ValueFrom<isize> for Fp32 {
    type Err = RangeError<isize>;

    open spec fn value_from_spec(src: isize) -> Result<Fp32, RangeError<isize>> {
        fp32_bounded_spec::<isize>(src, -16777216, 16777216)
    }

    fn value_from(src: isize) -> (r: Result<Fp32, RangeError<isize>>) {
        convert_bounded_fp32::<isize>(src, 16777216)
    }
}

impl ApproxFrom<isize, DefaultApprox> for Fp32 {
    type Err = RangeError<isize>;

    open spec fn approx_from_spec(src: isize) -> Result<Fp32, RangeError<isize>> {
        fp32_bounded_spec::<isize>(src, -16777216, 16777216)
    }

    fn approx_from(src: isize) -> (r: Result<Fp32, RangeError<isize>>) {
        convert_bounded_fp32::<isize>(src, 16777216)
    }
}

impl ValueFrom<u32> for Fp32 {
    type Err = PosOverflow<u32>;

    open spec fn value_from_spec(src: u32) -> Result<Fp32, PosOverflow<u32>> {
        fp32_pos_bounded_spec::<u32>(src, 16777216)
    }

    fn value_from(src: u32) -> (r: Result<Fp32, PosOverflow<u32>>) {
        convert_pos_bounded_fp32::<u32>(src, 16777216)
    }
}

impl ApproxFrom<u32, DefaultApprox> for Fp32 {
    type Err = PosOverflow<u32>;

    open spec fn approx_from_spec(src: u32) -> Result<Fp32, PosOverflow<u32>> {
        fp32_pos_bounded_spec::<u32>(src, 16777216)
    }

    fn approx_from(src: u32) -> (r: Result<Fp32, PosOverflow<u32>>) {
        convert_pos_bounded_fp32::<u32>(src, 16777216)
    }
}

impl ValueFrom<u64> for Fp32 {
    type Err = PosOverflow<u64>;

    open spec fn value_from_spec(src: u64) -> Result<Fp32, PosOverflow<u64>> {
        fp32_pos_bounded_spec::<u64>(src, 16777216)
    }

    fn value_from(src: u64) -> (r: Result<Fp32, PosOverflow<u64>>) {
        convert_pos_bounded_fp32::<u64>(src, 16777216)
    }
}

impl ApproxFrom<u64, DefaultApprox> for Fp32 {
    type Err = PosOverflow<u64>;

    open spec fn approx_from_spec(src: u64) -> Result<Fp32, PosOverflow<u64>> {
        fp32_pos_bounded_spec::<u64>(src, 16777216)
    }

    fn approx_from(src: u64) -> (r: Result<Fp32, PosOverflow<u64>>) {
        convert_pos_bounded_fp32::<u64>(src, 16777216)
    }
}

impl ValueFrom<usize> for Fp32 {
    type Err = PosOverflow<usize>;

    open spec fn value_from_spec(src: usize) -> Result<Fp32, PosOverflow<usize>> {
        fp32_pos_bounded_spec::<usize>(src, 16777216)
    }

    fn value_from(src: usize) -> (r: Result<Fp32, PosOverflow<usize>>) {
        convert_pos_bounded_fp32::<usize>(src, 16777216)
    }
}

impl ApproxFrom<usize, DefaultApprox> for Fp32 {
    type Err = PosOverflow<usize>;

    open spec fn approx_from_spec(src: usize) -> Result<Fp32, PosOverflow<usize>> {
        fp32_pos_bounded_spec::<usize>(src, 16777216)
    }

    fn approx_from(src: usize) -> (r: Result<Fp32, PosOverflow<usize>>) {
        convert_pos_bounded_fp32::<usize>(src, 16777216)
    }
}

impl ValueFrom<i8> for Fp64 {
    type Err = NoError;

    open spec fn value_from_spec(src: i8) -> Result<Fp64, NoError> {
        fp64_exact_spec::<i8>(src)
    }

    fn value_from(src: i8) -> (r: Result<Fp64, NoError>) {
        convert_exact_fp64::<i8>(src)
    }
}

impl ApproxFrom<i8, DefaultApprox> for Fp64 {
    type Err = NoError;

    open spec fn approx_from_spec(src: i8) -> Result<Fp64, NoError> {
        fp64_exact_spec::<i8>(src)
    }

    fn approx_from(src: i8) -> (r: Result<Fp64, NoError>) {
        convert_exact_fp64::<i8>(src)
    }
}

impl ValueFrom<i16> for Fp64 {
    type Err = NoError;

    open spec fn value_from_spec(src: i16) -> Result<Fp64, NoError> {
        fp64_exact_spec::<i16>(src)
    }

    fn value_from(src: i16) -> (r: Result<Fp64, NoError>) {
        convert_exact_fp64::<i16>(src)
    }
}

impl ApproxFrom<i16, DefaultApprox> for Fp64 {
    type Err = NoError;

    open spec fn approx_from_spec(src: i16) -> Result<Fp64, NoError> {
        fp64_exact_spec::<i16>(src)
    }

    fn approx_from(src: i16) -> (r: Result<Fp64, NoError>) {
        convert_exact_fp64::<i16>(src)
    }
}

impl ValueFrom<i32> for Fp64 {
    type Err = NoError;

    open spec fn value_from_spec(src: i32) -> Result<Fp64, NoError> {
        fp64_exact_spec::<i32>(src)
    }

    fn value_from(src: i32) -> (r: Result<Fp64, NoError>) {
        convert_exact_fp64::<i32>(src)
    }
}

impl ApproxFrom<i32, DefaultApprox> for Fp64 {
    type Err = NoError;

    open spec fn approx_from_spec(src: i32) -> Result<Fp64, NoError> {
        fp64_exact_spec::<i32>(src)
    }

    fn approx_from(src: i32) -> (r: Result<Fp64, NoError>) {
        convert_exact_fp64::<i32>(src)
    }
}

impl ValueFrom<u8> for Fp64 {
    type Err = NoError;

    open spec fn value_from_spec(src: u8) -> Result<Fp64, NoError> {
        fp64_exact_spec::<u8>(src)
    }

    fn value_from(src: u8) -> (r: Result<Fp64, NoError>) {
        convert_exact_fp64::<u8>(src)
    }
}

impl ApproxFrom<u8, DefaultApprox> for Fp64 {
    type Err = NoError;

    open spec fn approx_from_spec(src: u8) -> Result<Fp64, NoError> {
        fp64_exact_spec::<u8>(src)
    }

    fn approx_from(src: u8) -> (r: Result<Fp64, NoError>) {
        convert_exact_fp64::<u8>(src)
    }
}

impl ValueFrom<u16> for Fp64 {
    type Err = NoError;

    open spec fn value_from_spec(src: u16) -> Result<Fp64, NoError> {
        fp64_exact_spec::<u16>(src)
    }

    fn value_from(src: u16) -> (r: Result<Fp64, NoError>) {
        convert_exact_fp64::<u16>(src)
    }
}

impl ApproxFrom<u16, DefaultApprox> for Fp64 {
    type Err = NoError;

    open spec fn approx_from_spec(src: u16) -> Result<Fp64, NoError> {
        fp64_exact_spec::<u16>(src)
    }

    fn approx_from(src: u16) -> (r: Result<Fp64, NoError>) {
        convert_exact_fp64::<u16>(src)
    }
}

impl ValueFrom<u32> for Fp64 {
    type Err = NoError;

    open spec fn value_from_spec(src: u32) -> Result<Fp64, NoError> {
        fp64_exact_spec::<u32>(src)
    }

    fn value_from(src: u32) -> (r: Result<Fp64, NoError>) {
        convert_exact_fp64::<u32>(src)
    }
}

impl ApproxFrom<u32, DefaultApprox> for Fp64 {
    type Err = NoError;

    open spec fn approx_from_spec(src: u32) -> Result<Fp64, NoError> {
        fp64_exact_spec::<u32>(src)
    }

    fn approx_from(src: u32) -> (r: Result<Fp64, NoError>) {
        convert_exact_fp64::<u32>(src)
    }
}

impl ValueFrom<i64> for Fp64 {
    type Err = RangeError<i64>;

    open spec fn value_from_spec(src: i64) -> Result<Fp64, RangeError<i64>> {
        fp64_bounded_spec::<i64>(src, -9007199254740992, 9007199254740992)
    }

    fn value_from(src: i64) -> (r: Result<Fp64, RangeError<i64>>) {
        convert_bounded_fp64::<i64>(src, 9007199254740992)
    }
}

impl ApproxFrom<i64, DefaultApprox> for Fp64 {
    type Err = RangeError<i64>;

    open spec fn approx_from_spec(src: i64) -> Result<Fp64, RangeError<i64>> {
        fp64_bounded_spec::<i64>(src, -9007199254740992, 9007199254740992)
    }

    fn approx_from(src: i64) -> (r: Result<Fp64, RangeError<i64>>) {
        convert_bounded_fp64::<i64>(src, 9007199254740992)
    }
}

impl ValueFrom<isize> for Fp64 {
    type Err = RangeError<isize>;

    open spec fn value_from_spec(src: isize) -> Result<Fp64, RangeError<isize>> {
        fp64_bounded_spec::<isize>(src, -9007199254740992, 9007199254740992)
    }

    fn value_from(src: isize) -> (r: Result<Fp64, RangeError<isize>>) {
        convert_bounded_fp64::<isize>(src, 9007199254740992)
    }
}

impl ApproxFrom<isize, DefaultApprox> for Fp64 {
    type Err = RangeError<isize>;

    open spec fn approx_from_spec(src: isize) -> Result<Fp64, RangeError<isize>> {
        fp64_bounded_spec::<isize>(src, -9007199254740992, 9007199254740992)
    }

    fn approx_from(src: isize) -> (r: Result<Fp64, RangeError<isize>>) {
        convert_bounded_fp64::<isize>(src, 9007199254740992)
    }
}

impl ValueFrom<u64> for Fp64 {
    type Err = PosOverflow<u64>;

    open spec fn value_from_spec(src: u64) -> Result<Fp64, PosOverflow<u64>> {
        fp64_pos_bounded_spec::<u64>(src, 9007199254740992)
    }

    fn value_from(src: u64) -> (r: Result<Fp64, PosOverflow<u64>>) {
        convert_pos_bounded_fp64::<u64>(src, 9007199254740992)
    }
}

impl ApproxFrom<u64, DefaultApprox> for Fp64 {
    type Err = PosOverflow<u64>;

    open spec fn approx_from_spec(src: u64) -> Result<Fp64, PosOverflow<u64>> {
        fp64_pos_bounded_spec::<u64>(src, 9007199254740992)
    }

    fn approx_from(src: u64) -> (r: Result<Fp64, PosOverflow<u64>>) {
        convert_pos_bounded_fp64::<u64>(src, 9007199254740992)
    }
}

impl ValueFrom<usize> for Fp64 {
    type Err = PosOverflow<usize>;

    open spec fn value_from_spec(src: usize) -> Result<Fp64, PosOverflow<usize>> {
        fp64_pos_bounded_spec::<usize>(src, 9007199254740992)
    }

    fn value_from(src: usize) -> (r: Result<Fp64, PosOverflow<usize>>) {
        convert_pos_bounded_fp64::<usize>(src, 9007199254740992)
    }
}

impl ApproxFrom<usize, DefaultApprox> for Fp64 {
    type Err = PosOverflow<usize>;

    open spec fn approx_from_spec(src: usize) -> Result<Fp64, PosOverflow<usize>> {
        fp64_pos_bounded_spec::<usize>(src, 9007199254740992)
    }

    fn approx_from(src: usize) -> (r: Result<Fp64, PosOverflow<usize>>) {
        convert_pos_bounded_fp64::<usize>(src, 9007199254740992)
    }
}

} // verus!
