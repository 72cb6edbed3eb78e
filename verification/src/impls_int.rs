//! Conversion rules between the primitive integer types.
//!
//! Each ordered pair of distinct integer types gets one [`ValueFrom`] rule,
//! one [`ApproxFrom`] rule under [`DefaultApprox`] (identical to the value
//! rule: between integers nothing is approximated), and one [`ApproxFrom`]
//! rule under [`Wrapping`].  The checking strategy of each pair — total,
//! one-sided, or two-sided — is decided by the two types' ranges, and the
//! rule's error type is the narrowest that covers the checks it performs.
//!
//! The pointer-sized types are handled portably: a rule involving `isize`
//! or `usize` uses the narrowest strategy that is correct at both supported
//! pointer widths, and its contract is stated over `isize::MIN`,
//! `usize::MAX`, and friends, so it is exact at either width.  At a given
//! width, a check that cannot fail simply never produces its error.

use vstd::prelude::*;

use crate::engine::{
    checked_spec, convert_checked, convert_exact, convert_neg_checked, convert_pos_checked,
    convert_wrapping, exact_spec, neg_checked_spec, pos_checked_spec, wrapping_spec,
};
use crate::errors::{NegOverflow, NoError, PosOverflow, RangeError};
use crate::traits::{ApproxFrom, DefaultApprox, ValueFrom, Wrapping};

verus! {

impl ValueFrom<i8> for i16 {
    type Err = NoError;

    open spec fn value_from_spec(src: i8) -> Result<i16, NoError> {
        exact_spec::<i8, i16>(src)
    }

    fn value_from(src: i8) -> (r: Result<i16, NoError>) {
        convert_exact::<i8, i16>(src)
    }
}

impl ApproxFrom<i8, DefaultApprox> for i16 {
    type Err = NoError;

    open spec fn approx_from_spec(src: i8) -> Result<i16, NoError> {
        exact_spec::<i8, i16>(src)
    }

    fn approx_from(src: i8) -> (r: Result<i16, NoError>) {
        convert_exact::<i8, i16>(src)
    }
}

impl ApproxFrom<i8, Wrapping> for i16 {
    type Err = NoError;

    open spec fn approx_from_spec(src: i8) -> Result<i16, NoError> {
        wrapping_spec::<i8, i16>(src)
    }

    fn approx_from(src: i8) -> (r: Result<i16, NoError>) {
        convert_wrapping::<i8, i16>(src)
    }
}

impl ValueFrom<i8> for i32 {
    type Err = NoError;

    open spec fn value_from_spec(src: i8) -> Result<i32, NoError> {
        exact_spec::<i8, i32>(src)
    }

    fn value_from(src: i8) -> (r: Result<i32, NoError>) {
        convert_exact::<i8, i32>(src)
    }
}

impl ApproxFrom<i8, DefaultApprox> for i32 {
    type Err = NoError;

    open spec fn approx_from_spec(src: i8) -> Result<i32, NoError> {
        exact_spec::<i8, i32>(src)
    }

    fn approx_from(src: i8) -> (r: Result<i32, NoError>) {
        convert_exact::<i8, i32>(src)
    }
}

impl ApproxFrom<i8, Wrapping> for i32 {
    type Err = NoError;

    open spec fn approx_from_spec(src: i8) -> Result<i32, NoError> {
        wrapping_spec::<i8, i32>(src)
    }

    fn approx_from(src: i8) -> (r: Result<i32, NoError>) {
        convert_wrapping::<i8, i32>(src)
    }
}

impl ValueFrom<i8> for i64 {
    type Err = NoError;

    open spec fn value_from_spec(src: i8) -> Result<i64, NoError> {
        exact_spec::<i8, i64>(src)
    }

    fn value_from(src: i8) -> (r: Result<i64, NoError>) {
        convert_exact::<i8, i64>(src)
    }
}

impl ApproxFrom<i8, DefaultApprox> for i64 {
    type Err = NoError;

    open spec fn approx_from_spec(src: i8) -> Result<i64, NoError> {
        exact_spec::<i8, i64>(src)
    }

    fn approx_from(src: i8) -> (r: Result<i64, NoError>) {
        convert_exact::<i8, i64>(src)
    }
}

impl ApproxFrom<i8, Wrapping> for i64 {
    type Err = NoError;

    open spec fn approx_from_spec(src: i8) -> Result<i64, NoError> {
        wrapping_spec::<i8, i64>(src)
    }

    fn approx_from(src: i8) -> (r: Result<i64, NoError>) {
        convert_wrapping::<i8, i64>(src)
    }
}

impl ValueFrom<i8> for isize {
    type Err = NoError;

    open spec fn value_from_spec(src: i8) -> Result<isize, NoError> {
        exact_spec::<i8, isize>(src)
    }

    fn value_from(src: i8) -> (r: Result<isize, NoError>) {
        convert_exact::<i8, isize>(src)
    }
}

impl ApproxFrom<i8, DefaultApprox> for isize {
    type Err = NoError;

    open spec fn approx_from_spec(src: i8) -> Result<isize, NoError> {
        exact_spec::<i8, isize>(src)
    }

    fn approx_from(src: i8) -> (r: Result<isize, NoError>) {
        convert_exact::<i8, isize>(src)
    }
}

impl ApproxFrom<i8, Wrapping> for isize {
    type Err = NoError;

    open spec fn approx_from_spec(src: i8) -> Result<isize, NoError> {
        wrapping_spec::<i8, isize>(src)
    }

    fn approx_from(src: i8) -> (r: Result<isize, NoError>) {
        convert_wrapping::<i8, isize>(src)
    }
}

impl ValueFrom<i8> for u8 {
    type Err = NegOverflow<i8>;

    open spec fn value_from_spec(src: i8) -> Result<u8, NegOverflow<i8>> {
        neg_checked_spec::<i8, u8>(src)
    }

    fn value_from(src: i8) -> (r: Result<u8, NegOverflow<i8>>) {
        convert_neg_checked::<i8, u8>(src)
    }
}

impl ApproxFrom<i8, DefaultApprox> for u8 {
    type Err = NegOverflow<i8>;

    open spec fn approx_from_spec(src: i8) -> Result<u8, NegOverflow<i8>> {
        neg_checked_spec::<i8, u8>(src)
    }

    fn approx_from(src: i8) -> (r: Result<u8, NegOverflow<i8>>) {
        convert_neg_checked::<i8, u8>(src)
    }
}

impl ApproxFrom<i8, Wrapping> for u8 {
    type Err = NoError;

    open spec fn approx_from_spec(src: i8) -> Result<u8, NoError> {
        wrapping_spec::<i8, u8>(src)
    }

    fn approx_from(src: i8) -> (r: Result<u8, NoError>) {
        convert_wrapping::<i8, u8>(src)
    }
}

impl ValueFrom<i8> for u16 {
    type Err = NegOverflow<i8>;

    open spec fn value_from_spec(src: i8) -> Result<u16, NegOverflow<i8>> {
        neg_checked_spec::<i8, u16>(src)
    }

    fn value_from(src: i8) -> (r: Result<u16, NegOverflow<i8>>) {
        convert_neg_checked::<i8, u16>(src)
    }
}

impl ApproxFrom<i8, DefaultApprox> for u16 {
    type Err = NegOverflow<i8>;

    open spec fn approx_from_spec(src: i8) -> Result<u16, NegOverflow<i8>> {
        neg_checked_spec::<i8, u16>(src)
    }

    fn approx_from(src: i8) -> (r: Result<u16, NegOverflow<i8>>) {
        convert_neg_checked::<i8, u16>(src)
    }
}

impl ApproxFrom<i8, Wrapping> for u16 {
    type Err = NoError;

    open spec fn approx_from_spec(src: i8) -> Result<u16, NoError> {
        wrapping_spec::<i8, u16>(src)
    }

    fn approx_from(src: i8) -> (r: Result<u16, NoError>) {
        convert_wrapping::<i8, u16>(src)
    }
}

impl ValueFrom<i8> for u32 {
    type Err = NegOverflow<i8>;

    open spec fn value_from_spec(src: i8) -> Result<u32, NegOverflow<i8>> {
        neg_checked_spec::<i8, u32>(src)
    }

    fn value_from(src: i8) -> (r: Result<u32, NegOverflow<i8>>) {
        convert_neg_checked::<i8, u32>(src)
    }
}

impl ApproxFrom<i8, DefaultApprox> for u32 {
    type Err = NegOverflow<i8>;

    open spec fn approx_from_spec(src: i8) -> Result<u32, NegOverflow<i8>> {
        neg_checked_spec::<i8, u32>(src)
    }

    fn approx_from(src: i8) -> (r: Result<u32, NegOverflow<i8>>) {
        convert_neg_checked::<i8, u32>(src)
    }
}

impl ApproxFrom<i8, Wrapping> for u32 {
    type Err = NoError;

    open spec fn approx_from_spec(src: i8) -> Result<u32, NoError> {
        wrapping_spec::<i8, u32>(src)
    }

    fn approx_from(src: i8) -> (r: Result<u32, NoError>) {
        convert_wrapping::<i8, u32>(src)
    }
}

impl ValueFrom<i8> for u64 {
    type Err = NegOverflow<i8>;

    open spec fn value_from_spec(src: i8) -> Result<u64, NegOverflow<i8>> {
        neg_checked_spec::<i8, u64>(src)
    }

    fn value_from(src: i8) -> (r: Result<u64, NegOverflow<i8>>) {
        convert_neg_checked::<i8, u64>(src)
    }
}

impl ApproxFrom<i8, DefaultApprox> for u64 {
    type Err = NegOverflow<i8>;

    open spec fn approx_from_spec(src: i8) -> Result<u64, NegOverflow<i8>> {
        neg_checked_spec::<i8, u64>(src)
    }

    fn approx_from(src: i8) -> (r: Result<u64, NegOverflow<i8>>) {
        convert_neg_checked::<i8, u64>(src)
    }
}

impl ApproxFrom<i8, Wrapping> for u64 {
    type Err = NoError;

    open spec fn approx_from_spec(src: i8) -> Result<u64, NoError> {
        wrapping_spec::<i8, u64>(src)
    }

    fn approx_from(src: i8) -> (r: Result<u64, NoError>) {
        convert_wrapping::<i8, u64>(src)
    }
}

impl ValueFrom<i8> for usize {
    type Err = NegOverflow<i8>;

    open spec fn value_from_spec(src: i8) -> Result<usize, NegOverflow<i8>> {
        neg_checked_spec::<i8, usize>(src)
    }

    fn value_from(src: i8) -> (r: Result<usize, NegOverflow<i8>>) {
        convert_neg_checked::<i8, usize>(src)
    }
}

impl ApproxFrom<i8, DefaultApprox> for usize {
    type Err = NegOverflow<i8>;

    open spec fn approx_from_spec(src: i8) -> Result<usize, NegOverflow<i8>> {
        neg_checked_spec::<i8, usize>(src)
    }

    fn approx_from(src: i8) -> (r: Result<usize, NegOverflow<i8>>) {
        convert_neg_checked::<i8, usize>(src)
    }
}

impl ApproxFrom<i8, Wrapping> for usize {
    type Err = NoError;

    open spec fn approx_from_spec(src: i8) -> Result<usize, NoError> {
        wrapping_spec::<i8, usize>(src)
    }

    fn approx_from(src: i8) -> (r: Result<usize, NoError>) {
        convert_wrapping::<i8, usize>(src)
    }
}

impl ValueFrom<i16> for i8 {
    type Err = RangeError<i16>;

    open spec fn value_from_spec(src: i16) -> Result<i8, RangeError<i16>> {
        checked_spec::<i16, i8>(src)
    }

    fn value_from(src: i16) -> (r: Result<i8, RangeError<i16>>) {
        convert_checked::<i16, i8>(src)
    }
}

impl ApproxFrom<i16, DefaultApprox> for i8 {
    type Err = RangeError<i16>;

    open spec fn approx_from_spec(src: i16) -> Result<i8, RangeError<i16>> {
        checked_spec::<i16, i8>(src)
    }

    fn approx_from(src: i16) -> (r: Result<i8, RangeError<i16>>) {
        convert_checked::<i16, i8>(src)
    }
}

impl ApproxFrom<i16, Wrapping> for i8 {
    type Err = NoError;

    open spec fn approx_from_spec(src: i16) -> Result<i8, NoError> {
        wrapping_spec::<i16, i8>(src)
    }

    fn approx_from(src: i16) -> (r: Result<i8, NoError>) {
        convert_wrapping::<i16, i8>(src)
    }
}

impl ValueFrom<i16> for i32 {
    type Err = NoError;

    open spec fn value_from_spec(src: i16) -> Result<i32, NoError> {
        exact_spec::<i16, i32>(src)
    }

    fn value_from(src: i16) -> (r: Result<i32, NoError>) {
        convert_exact::<i16, i32>(src)
    }
}

impl ApproxFrom<i16, DefaultApprox> for i32 {
    type Err = NoError;

    open spec fn approx_from_spec(src: i16) -> Result<i32, NoError> {
        exact_spec::<i16, i32>(src)
    }

    fn approx_from(src: i16) -> (r: Result<i32, NoError>) {
        convert_exact::<i16, i32>(src)
    }
}

impl ApproxFrom<i16, Wrapping> for i32 {
    type Err = NoError;

    open spec fn approx_from_spec(src: i16) -> Result<i32, NoError> {
        wrapping_spec::<i16, i32>(src)
    }

    fn approx_from(src: i16) -> (r: Result<i32, NoError>) {
        convert_wrapping::<i16, i32>(src)
    }
}

impl ValueFrom<i16> for i64 {
    type Err = NoError;

    open spec fn value_from_spec(src: i16) -> Result<i64, NoError> {
        exact_spec::<i16, i64>(src)
    }

    fn value_from(src: i16) -> (r: Result<i64, NoError>) {
        convert_exact::<i16, i64>(src)
    }
}

impl ApproxFrom<i16, DefaultApprox> for i64 {
    type Err = NoError;

    open spec fn approx_from_spec(src: i16) -> Result<i64, NoError> {
        exact_spec::<i16, i64>(src)
    }

    fn approx_from(src: i16) -> (r: Result<i64, NoError>) {
        convert_exact::<i16, i64>(src)
    }
}

impl ApproxFrom<i16, Wrapping> for i64 {
    type Err = NoError;

    open spec fn approx_from_spec(src: i16) -> Result<i64, NoError> {
        wrapping_spec::<i16, i64>(src)
    }

    fn approx_from(src: i16) -> (r: Result<i64, NoError>) {
        convert_wrapping::<i16, i64>(src)
    }
}

impl ValueFrom<i16> for isize {
    type Err = NoError;

    open spec fn value_from_spec(src: i16) -> Result<isize, NoError> {
        exact_spec::<i16, isize>(src)
    }

    fn value_from(src: i16) -> (r: Result<isize, NoError>) {
        convert_exact::<i16, isize>(src)
    }
}

impl ApproxFrom<i16, DefaultApprox> for isize {
    type Err = NoError;

    open spec fn approx_from_spec(src: i16) -> Result<isize, NoError> {
        exact_spec::<i16, isize>(src)
    }

    fn approx_from(src: i16) -> (r: Result<isize, NoError>) {
        convert_exact::<i16, isize>(src)
    }
}

impl ApproxFrom<i16, Wrapping> for isize {
    type Err = NoError;

    open spec fn approx_from_spec(src: i16) -> Result<isize, NoError> {
        wrapping_spec::<i16, isize>(src)
    }

    fn approx_from(src: i16) -> (r: Result<isize, NoError>) {
        convert_wrapping::<i16, isize>(src)
    }
}

impl ValueFrom<i16> for u8 {
    type Err = RangeError<i16>;

    open spec fn value_from_spec(src: i16) -> Result<u8, RangeError<i16>> {
        checked_spec::<i16, u8>(src)
    }

    fn value_from(src: i16) -> (r: Result<u8, RangeError<i16>>) {
        convert_checked::<i16, u8>(src)
    }
}

impl ApproxFrom<i16, DefaultApprox> for u8 {
    type Err = RangeError<i16>;

    open spec fn approx_from_spec(src: i16) -> Result<u8, RangeError<i16>> {
        checked_spec::<i16, u8>(src)
    }

    fn approx_from(src: i16) -> (r: Result<u8, RangeError<i16>>) {
        convert_checked::<i16, u8>(src)
    }
}

impl ApproxFrom<i16, Wrapping> for u8 {
    type Err = NoError;

    open spec fn approx_from_spec(src: i16) -> Result<u8, NoError> {
        wrapping_spec::<i16, u8>(src)
    }

    fn approx_from(src: i16) -> (r: Result<u8, NoError>) {
        convert_wrapping::<i16, u8>(src)
    }
}

impl ValueFrom<i16> for u16 {
    type Err = NegOverflow<i16>;

    open spec fn value_from_spec(src: i16) -> Result<u16, NegOverflow<i16>> {
        neg_checked_spec::<i16, u16>(src)
    }

    fn value_from(src: i16) -> (r: Result<u16, NegOverflow<i16>>) {
        convert_neg_checked::<i16, u16>(src)
    }
}

impl ApproxFrom<i16, DefaultApprox> for u16 {
    type Err = NegOverflow<i16>;

    open spec fn approx_from_spec(src: i16) -> Result<u16, NegOverflow<i16>> {
        neg_checked_spec::<i16, u16>(src)
    }

    fn approx_from(src: i16) -> (r: Result<u16, NegOverflow<i16>>) {
        convert_neg_checked::<i16, u16>(src)
    }
}

impl ApproxFrom<i16, Wrapping> for u16 {
    type Err = NoError;

    open spec fn approx_from_spec(src: i16) -> Result<u16, NoError> {
        wrapping_spec::<i16, u16>(src)
    }

    fn approx_from(src: i16) -> (r: Result<u16, NoError>) {
        convert_wrapping::<i16, u16>(src)
    }
}

impl ValueFrom<i16> for u32 {
    type Err = NegOverflow<i16>;

    open spec fn value_from_spec(src: i16) -> Result<u32, NegOverflow<i16>> {
        neg_checked_spec::<i16, u32>(src)
    }

    fn value_from(src: i16) -> (r: Result<u32, NegOverflow<i16>>) {
        convert_neg_checked::<i16, u32>(src)
    }
}

impl ApproxFrom<i16, DefaultApprox> for u32 {
    type Err = NegOverflow<i16>;

    open spec fn approx_from_spec(src: i16) -> Result<u32, NegOverflow<i16>> {
        neg_checked_spec::<i16, u32>(src)
    }

    fn approx_from(src: i16) -> (r: Result<u32, NegOverflow<i16>>) {
        convert_neg_checked::<i16, u32>(src)
    }
}

impl ApproxFrom<i16, Wrapping> for u32 {
    type Err = NoError;

    open spec fn approx_from_spec(src: i16) -> Result<u32, NoError> {
        wrapping_spec::<i16, u32>(src)
    }

    fn approx_from(src: i16) -> (r: Result<u32, NoError>) {
        convert_wrapping::<i16, u32>(src)
    }
}

impl ValueFrom<i16> for u64 {
    type Err = NegOverflow<i16>;

    open spec fn value_from_spec(src: i16) -> Result<u64, NegOverflow<i16>> {
        neg_checked_spec::<i16, u64>(src)
    }

    fn value_from(src: i16) -> (r: Result<u64, NegOverflow<i16>>) {
        convert_neg_checked::<i16, u64>(src)
    }
}

impl ApproxFrom<i16, DefaultApprox> for u64 {
    type Err = NegOverflow<i16>;

    open spec fn approx_from_spec(src: i16) -> Result<u64, NegOverflow<i16>> {
        neg_checked_spec::<i16, u64>(src)
    }

    fn approx_from(src: i16) -> (r: Result<u64, NegOverflow<i16>>) {
        convert_neg_checked::<i16, u64>(src)
    }
}

impl ApproxFrom<i16, Wrapping> for u64 {
    type Err = NoError;

    open spec fn approx_from_spec(src: i16) -> Result<u64, NoError> {
        wrapping_spec::<i16, u64>(src)
    }

    fn approx_from(src: i16) -> (r: Result<u64, NoError>) {
        convert_wrapping::<i16, u64>(src)
    }
}

impl ValueFrom<i16> for usize {
    type Err = NegOverflow<i16>;

    open spec fn value_from_spec(src: i16) -> Result<usize, NegOverflow<i16>> {
        neg_checked_spec::<i16, usize>(src)
    }

    fn value_from(src: i16) -> (r: Result<usize, NegOverflow<i16>>) {
        convert_neg_checked::<i16, usize>(src)
    }
}

impl ApproxFrom<i16, DefaultApprox> for usize {
    type Err = NegOverflow<i16>;

    open spec fn approx_from_spec(src: i16) -> Result<usize, NegOverflow<i16>> {
        neg_checked_spec::<i16, usize>(src)
    }

    fn approx_from(src: i16) -> (r: Result<usize, NegOverflow<i16>>) {
        convert_neg_checked::<i16, usize>(src)
    }
}

impl ApproxFrom<i16, Wrapping> for usize {
    type Err = NoError;

    open spec fn approx_from_spec(src: i16) -> Result<usize, NoError> {
        wrapping_spec::<i16, usize>(src)
    }

    fn approx_from(src: i16) -> (r: Result<usize, NoError>) {
        convert_wrapping::<i16, usize>(src)
    }
}

impl ValueFrom<i32> for i8 {
    type Err = RangeError<i32>;

    open spec fn value_from_spec(src: i32) -> Result<i8, RangeError<i32>> {
        checked_spec::<i32, i8>(src)
    }

    fn value_from(src: i32) -> (r: Result<i8, RangeError<i32>>) {
        convert_checked::<i32, i8>(src)
    }
}

impl ApproxFrom<i32, DefaultApprox> for i8 {
    type Err = RangeError<i32>;

    open spec fn approx_from_spec(src: i32) -> Result<i8, RangeError<i32>> {
        checked_spec::<i32, i8>(src)
    }

    fn approx_from(src: i32) -> (r: Result<i8, RangeError<i32>>) {
        convert_checked::<i32, i8>(src)
    }
}

impl ApproxFrom<i32, Wrapping> for i8 {
    type Err = NoError;

    open spec fn approx_from_spec(src: i32) -> Result<i8, NoError> {
        wrapping_spec::<i32, i8>(src)
    }

    fn approx_from(src: i32) -> (r: Result<i8, NoError>) {
        convert_wrapping::<i32, i8>(src)
    }
}

impl ValueFrom<i32> for i16 {
    type Err = RangeError<i32>;

    open spec fn value_from_spec(src: i32) -> Result<i16, RangeError<i32>> {
        checked_spec::<i32, i16>(src)
    }

    fn value_from(src: i32) -> (r: Result<i16, RangeError<i32>>) {
        convert_checked::<i32, i16>(src)
    }
}

impl ApproxFrom<i32, DefaultApprox> for i16 {
    type Err = RangeError<i32>;

    open spec fn approx_from_spec(src: i32) -> Result<i16, RangeError<i32>> {
        checked_spec::<i32, i16>(src)
    }

    fn approx_from(src: i32) -> (r: Result<i16, RangeError<i32>>) {
        convert_checked::<i32, i16>(src)
    }
}

impl ApproxFrom<i32, Wrapping> for i16 {
    type Err = NoError;

    open spec fn approx_from_spec(src: i32) -> Result<i16, NoError> {
        wrapping_spec::<i32, i16>(src)
    }

    fn approx_from(src: i32) -> (r: Result<i16, NoError>) {
        convert_wrapping::<i32, i16>(src)
    }
}

impl ValueFrom<i32> for i64 {
    type Err = NoError;

    open spec fn value_from_spec(src: i32) -> Result<i64, NoError> {
        exact_spec::<i32, i64>(src)
    }

    fn value_from(src: i32) -> (r: Result<i64, NoError>) {
        convert_exact::<i32, i64>(src)
    }
}

impl ApproxFrom<i32, DefaultApprox> for i64 {
    type Err = NoError;

    open spec fn approx_from_spec(src: i32) -> Result<i64, NoError> {
        exact_spec::<i32, i64>(src)
    }

    fn approx_from(src: i32) -> (r: Result<i64, NoError>) {
        convert_exact::<i32, i64>(src)
    }
}

impl ApproxFrom<i32, Wrapping> for i64 {
    type Err = NoError;

    open spec fn approx_from_spec(src: i32) -> Result<i64, NoError> {
        wrapping_spec::<i32, i64>(src)
    }

    fn approx_from(src: i32) -> (r: Result<i64, NoError>) {
        convert_wrapping::<i32, i64>(src)
    }
}

impl ValueFrom<i32> for isize {
    type Err = NoError;

    open spec fn value_from_spec(src: i32) -> Result<isize, NoError> {
        exact_spec::<i32, isize>(src)
    }

    fn value_from(src: i32) -> (r: Result<isize, NoError>) {
        convert_exact::<i32, isize>(src)
    }
}

impl ApproxFrom<i32, DefaultApprox> for isize {
    type Err = NoError;

    open spec fn approx_from_spec(src: i32) -> Result<isize, NoError> {
        exact_spec::<i32, isize>(src)
    }

    fn approx_from(src: i32) -> (r: Result<isize, NoError>) {
        convert_exact::<i32, isize>(src)
    }
}

impl ApproxFrom<i32, Wrapping> for isize {
    type Err = NoError;

    open spec fn approx_from_spec(src: i32) -> Result<isize, NoError> {
        wrapping_spec::<i32, isize>(src)
    }

    fn approx_from(src: i32) -> (r: Result<isize, NoError>) {
        convert_wrapping::<i32, isize>(src)
    }
}

impl ValueFrom<i32> for u8 {
    type Err = RangeError<i32>;

    open spec fn value_from_spec(src: i32) -> Result<u8, RangeError<i32>> {
        checked_spec::<i32, u8>(src)
    }

    fn value_from(src: i32) -> (r: Result<u8, RangeError<i32>>) {
        convert_checked::<i32, u8>(src)
    }
}

impl ApproxFrom<i32, DefaultApprox> for u8 {
    type Err = RangeError<i32>;

    open spec fn approx_from_spec(src: i32) -> Result<u8, RangeError<i32>> {
        checked_spec::<i32, u8>(src)
    }

    fn approx_from(src: i32) -> (r: Result<u8, RangeError<i32>>) {
        convert_checked::<i32, u8>(src)
    }
}

impl ApproxFrom<i32, Wrapping> for u8 {
    type Err = NoError;

    open spec fn approx_from_spec(src: i32) -> Result<u8, NoError> {
        wrapping_spec::<i32, u8>(src)
    }

    fn approx_from(src: i32) -> (r: Result<u8, NoError>) {
        convert_wrapping::<i32, u8>(src)
    }
}

impl ValueFrom<i32> for u16 {
    type Err = RangeError<i32>;

    open spec fn value_from_spec(src: i32) -> Result<u16, RangeError<i32>> {
        checked_spec::<i32, u16>(src)
    }

    fn value_from(src: i32) -> (r: Result<u16, RangeError<i32>>) {
        convert_checked::<i32, u16>(src)
    }
}

impl ApproxFrom<i32, DefaultApprox> for u16 {
    type Err = RangeError<i32>;

    open spec fn approx_from_spec(src: i32) -> Result<u16, RangeError<i32>> {
        checked_spec::<i32, u16>(src)
    }

    fn approx_from(src: i32) -> (r: Result<u16, RangeError<i32>>) {
        convert_checked::<i32, u16>(src)
    }
}

impl ApproxFrom<i32, Wrapping> for u16 {
    type Err = NoError;

    open spec fn approx_from_spec(src: i32) -> Result<u16, NoError> {
        wrapping_spec::<i32, u16>(src)
    }

    fn approx_from(src: i32) -> (r: Result<u16, NoError>) {
        convert_wrapping::<i32, u16>(src)
    }
}

impl ValueFrom<i32> for u32 {
    type Err = NegOverflow<i32>;

    open spec fn value_from_spec(src: i32) -> Result<u32, NegOverflow<i32>> {
        neg_checked_spec::<i32, u32>(src)
    }

    fn value_from(src: i32) -> (r: Result<u32, NegOverflow<i32>>) {
        convert_neg_checked::<i32, u32>(src)
    }
}

impl ApproxFrom<i32, DefaultApprox> for u32 {
    type Err = NegOverflow<i32>;

    open spec fn approx_from_spec(src: i32) -> Result<u32, NegOverflow<i32>> {
        neg_checked_spec::<i32, u32>(src)
    }

    fn approx_from(src: i32) -> (r: Result<u32, NegOverflow<i32>>) {
        convert_neg_checked::<i32, u32>(src)
    }
}

impl ApproxFrom<i32, Wrapping> for u32 {
    type Err = NoError;

    open spec fn approx_from_spec(src: i32) -> Result<u32, NoError> {
        wrapping_spec::<i32, u32>(src)
    }

    fn approx_from(src: i32) -> (r: Result<u32, NoError>) {
        convert_wrapping::<i32, u32>(src)
    }
}

impl ValueFrom<i32> for u64 {
    type Err = NegOverflow<i32>;

    open spec fn value_from_spec(src: i32) -> Result<u64, NegOverflow<i32>> {
        neg_checked_spec::<i32, u64>(src)
    }

    fn value_from(src: i32) -> (r: Result<u64, NegOverflow<i32>>) {
        convert_neg_checked::<i32, u64>(src)
    }
}

impl ApproxFrom<i32, DefaultApprox> for u64 {
    type Err = NegOverflow<i32>;

    open spec fn approx_from_spec(src: i32) -> Result<u64, NegOverflow<i32>> {
        neg_checked_spec::<i32, u64>(src)
    }

    fn approx_from(src: i32) -> (r: Result<u64, NegOverflow<i32>>) {
        convert_neg_checked::<i32, u64>(src)
    }
}

impl ApproxFrom<i32, Wrapping> for u64 {
    type Err = NoError;

    open spec fn approx_from_spec(src: i32) -> Result<u64, NoError> {
        wrapping_spec::<i32, u64>(src)
    }

    fn approx_from(src: i32) -> (r: Result<u64, NoError>) {
        convert_wrapping::<i32, u64>(src)
    }
}

impl ValueFrom<i32> for usize {
    type Err = NegOverflow<i32>;

    open spec fn value_from_spec(src: i32) -> Result<usize, NegOverflow<i32>> {
        neg_checked_spec::<i32, usize>(src)
    }

    fn value_from(src: i32) -> (r: Result<usize, NegOverflow<i32>>) {
        convert_neg_checked::<i32, usize>(src)
    }
}

impl ApproxFrom<i32, DefaultApprox> for usize {
    type Err = NegOverflow<i32>;

    open spec fn approx_from_spec(src: i32) -> Result<usize, NegOverflow<i32>> {
        neg_checked_spec::<i32, usize>(src)
    }

    fn approx_from(src: i32) -> (r: Result<usize, NegOverflow<i32>>) {
        convert_neg_checked::<i32, usize>(src)
    }
}

impl ApproxFrom<i32, Wrapping> for usize {
    type Err = NoError;

    open spec fn approx_from_spec(src: i32) -> Result<usize, NoError> {
        wrapping_spec::<i32, usize>(src)
    }

    fn approx_from(src: i32) -> (r: Result<usize, NoError>) {
        convert_wrapping::<i32, usize>(src)
    }
}

impl ValueFrom<i64> for i8 {
    type Err = RangeError<i64>;

    open spec fn value_from_spec(src: i64) -> Result<i8, RangeError<i64>> {
        checked_spec::<i64, i8>(src)
    }

    fn value_from(src: i64) -> (r: Result<i8, RangeError<i64>>) {
        convert_checked::<i64, i8>(src)
    }
}

impl ApproxFrom<i64, DefaultApprox> for i8 {
    type Err = RangeError<i64>;

    open spec fn approx_from_spec(src: i64) -> Result<i8, RangeError<i64>> {
        checked_spec::<i64, i8>(src)
    }

    fn approx_from(src: i64) -> (r: Result<i8, RangeError<i64>>) {
        convert_checked::<i64, i8>(src)
    }
}

impl ApproxFrom<i64, Wrapping> for i8 {
    type Err = NoError;

    open spec fn approx_from_spec(src: i64) -> Result<i8, NoError> {
        wrapping_spec::<i64, i8>(src)
    }

    fn approx_from(src: i64) -> (r: Result<i8, NoError>) {
        convert_wrapping::<i64, i8>(src)
    }
}

impl ValueFrom<i64> for i16 {
    type Err = RangeError<i64>;

    open spec fn value_from_spec(src: i64) -> Result<i16, RangeError<i64>> {
        checked_spec::<i64, i16>(src)
    }

    fn value_from(src: i64) -> (r: Result<i16, RangeError<i64>>) {
        convert_checked::<i64, i16>(src)
    }
}

impl ApproxFrom<i64, DefaultApprox> for i16 {
    type Err = RangeError<i64>;

    open spec fn approx_from_spec(src: i64) -> Result<i16, RangeError<i64>> {
        checked_spec::<i64, i16>(src)
    }

    fn approx_from(src: i64) -> (r: Result<i16, RangeError<i64>>) {
        convert_checked::<i64, i16>(src)
    }
}

impl ApproxFrom<i64, Wrapping> for i16 {
    type Err = NoError;

    open spec fn approx_from_spec(src: i64) -> Result<i16, NoError> {
        wrapping_spec::<i64, i16>(src)
    }

    fn approx_from(src: i64) -> (r: Result<i16, NoError>) {
        convert_wrapping::<i64, i16>(src)
    }
}

impl ValueFrom<i64> for i32 {
    type Err = RangeError<i64>;

    open spec fn value_from_spec(src: i64) -> Result<i32, RangeError<i64>> {
        checked_spec::<i64, i32>(src)
    }

    fn value_from(src: i64) -> (r: Result<i32, RangeError<i64>>) {
        convert_checked::<i64, i32>(src)
    }
}

impl ApproxFrom<i64, DefaultApprox> for i32 {
    type Err = RangeError<i64>;

    open spec fn approx_from_spec(src: i64) -> Result<i32, RangeError<i64>> {
        checked_spec::<i64, i32>(src)
    }

    fn approx_from(src: i64) -> (r: Result<i32, RangeError<i64>>) {
        convert_checked::<i64, i32>(src)
    }
}

impl ApproxFrom<i64, Wrapping> for i32 {
    type Err = NoError;

    open spec fn approx_from_spec(src: i64) -> Result<i32, NoError> {
        wrapping_spec::<i64, i32>(src)
    }

    fn approx_from(src: i64) -> (r: Result<i32, NoError>) {
        convert_wrapping::<i64, i32>(src)
    }
}

impl ValueFrom<i64> for isize {
    type Err = RangeError<i64>;

    open spec fn value_from_spec(src: i64) -> Result<isize, RangeError<i64>> {
        checked_spec::<i64, isize>(src)
    }

    fn value_from(src: i64) -> (r: Result<isize, RangeError<i64>>) {
        convert_checked::<i64, isize>(src)
    }
}

impl ApproxFrom<i64, DefaultApprox> for isize {
    type Err = RangeError<i64>;

    open spec fn approx_from_spec(src: i64) -> Result<isize, RangeError<i64>> {
        checked_spec::<i64, isize>(src)
    }

    fn approx_from(src: i64) -> (r: Result<isize, RangeError<i64>>) {
        convert_checked::<i64, isize>(src)
    }
}

impl ApproxFrom<i64, Wrapping> for isize {
    type Err = NoError;

    open spec fn approx_from_spec(src: i64) -> Result<isize, NoError> {
        wrapping_spec::<i64, isize>(src)
    }

    fn approx_from(src: i64) -> (r: Result<isize, NoError>) {
        convert_wrapping::<i64, isize>(src)
    }
}

impl ValueFrom<i64> for u8 {
    type Err = RangeError<i64>;

    open spec fn value_from_spec(src: i64) -> Result<u8, RangeError<i64>> {
        checked_spec::<i64, u8>(src)
    }

    fn value_from(src: i64) -> (r: Result<u8, RangeError<i64>>) {
        convert_checked::<i64, u8>(src)
    }
}

impl ApproxFrom<i64, DefaultApprox> for u8 {
    type Err = RangeError<i64>;

    open spec fn approx_from_spec(src: i64) -> Result<u8, RangeError<i64>> {
        checked_spec::<i64, u8>(src)
    }

    fn approx_from(src: i64) -> (r: Result<u8, RangeError<i64>>) {
        convert_checked::<i64, u8>(src)
    }
}

impl ApproxFrom<i64, Wrapping> for u8 {
    type Err = NoError;

    open spec fn approx_from_spec(src: i64) -> Result<u8, NoError> {
        wrapping_spec::<i64, u8>(src)
    }

    fn approx_from(src: i64) -> (r: Result<u8, NoError>) {
        convert_wrapping::<i64, u8>(src)
    }
}

impl ValueFrom<i64> for u16 {
    type Err = RangeError<i64>;

    open spec fn value_from_spec(src: i64) -> Result<u16, RangeError<i64>> {
        checked_spec::<i64, u16>(src)
    }

    fn value_from(src: i64) -> (r: Result<u16, RangeError<i64>>) {
        convert_checked::<i64, u16>(src)
    }
}

impl ApproxFrom<i64, DefaultApprox> for u16 {
    type Err = RangeError<i64>;

    open spec fn approx_from_spec(src: i64) -> Result<u16, RangeError<i64>> {
        checked_spec::<i64, u16>(src)
    }

    fn approx_from(src: i64) -> (r: Result<u16, RangeError<i64>>) {
        convert_checked::<i64, u16>(src)
    }
}

impl ApproxFrom<i64, Wrapping> for u16 {
    type Err = NoError;

    open spec fn approx_from_spec(src: i64) -> Result<u16, NoError> {
        wrapping_spec::<i64, u16>(src)
    }

    fn approx_from(src: i64) -> (r: Result<u16, NoError>) {
        convert_wrapping::<i64, u16>(src)
    }
}

impl ValueFrom<i64> for u32 {
    type Err = RangeError<i64>;

    open spec fn value_from_spec(src: i64) -> Result<u32, RangeError<i64>> {
        checked_spec::<i64, u32>(src)
    }

    fn value_from(src: i64) -> (r: Result<u32, RangeError<i64>>) {
        convert_checked::<i64, u32>(src)
    }
}

impl ApproxFrom<i64, DefaultApprox> for u32 {
    type Err = RangeError<i64>;

    open spec fn approx_from_spec(src: i64) -> Result<u32, RangeError<i64>> {
        checked_spec::<i64, u32>(src)
    }

    fn approx_from(src: i64) -> (r: Result<u32, RangeError<i64>>) {
        convert_checked::<i64, u32>(src)
    }
}

impl ApproxFrom<i64, Wrapping> for u32 {
    type Err = NoError;

    open spec fn approx_from_spec(src: i64) -> Result<u32, NoError> {
        wrapping_spec::<i64, u32>(src)
    }

    fn approx_from(src: i64) -> (r: Result<u32, NoError>) {
        convert_wrapping::<i64, u32>(src)
    }
}

impl ValueFrom<i64> for u64 {
    type Err = NegOverflow<i64>;

    open spec fn value_from_spec(src: i64) -> Result<u64, NegOverflow<i64>> {
        neg_checked_spec::<i64, u64>(src)
    }

    fn value_from(src: i64) -> (r: Result<u64, NegOverflow<i64>>) {
        convert_neg_checked::<i64, u64>(src)
    }
}

impl ApproxFrom<i64, DefaultApprox> for u64 {
    type Err = NegOverflow<i64>;

    open spec fn approx_from_spec(src: i64) -> Result<u64, NegOverflow<i64>> {
        neg_checked_spec::<i64, u64>(src)
    }

    fn approx_from(src: i64) -> (r: Result<u64, NegOverflow<i64>>) {
        convert_neg_checked::<i64, u64>(src)
    }
}

impl ApproxFrom<i64, Wrapping> for u64 {
    type Err = NoError;

    open spec fn approx_from_spec(src: i64) -> Result<u64, NoError> {
        wrapping_spec::<i64, u64>(src)
    }

    fn approx_from(src: i64) -> (r: Result<u64, NoError>) {
        convert_wrapping::<i64, u64>(src)
    }
}

impl ValueFrom<i64> for usize {
    type Err = RangeError<i64>;

    open spec fn value_from_spec(src: i64) -> Result<usize, RangeError<i64>> {
        checked_spec::<i64, usize>(src)
    }

    fn value_from(src: i64) -> (r: Result<usize, RangeError<i64>>) {
        convert_checked::<i64, usize>(src)
    }
}

impl ApproxFrom<i64, DefaultApprox> for usize {
    type Err = RangeError<i64>;

    open spec fn approx_from_spec(src: i64) -> Result<usize, RangeError<i64>> {
        checked_spec::<i64, usize>(src)
    }

    fn approx_from(src: i64) -> (r: Result<usize, RangeError<i64>>) {
        convert_checked::<i64, usize>(src)
    }
}

impl ApproxFrom<i64, Wrapping> for usize {
    type Err = NoError;

    open spec fn approx_from_spec(src: i64) -> Result<usize, NoError> {
        wrapping_spec::<i64, usize>(src)
    }

    fn approx_from(src: i64) -> (r: Result<usize, NoError>) {
        convert_wrapping::<i64, usize>(src)
    }
}

impl ValueFrom<isize> for i8 {
    type Err = RangeError<isize>;

    open spec fn value_from_spec(src: isize) -> Result<i8, RangeError<isize>> {
        checked_spec::<isize, i8>(src)
    }

    fn value_from(src: isize) -> (r: Result<i8, RangeError<isize>>) {
        convert_checked::<isize, i8>(src)
    }
}

impl ApproxFrom<isize, DefaultApprox> for i8 {
    type Err = RangeError<isize>;

    open spec fn approx_from_spec(src: isize) -> Result<i8, RangeError<isize>> {
        checked_spec::<isize, i8>(src)
    }

    fn approx_from(src: isize) -> (r: Result<i8, RangeError<isize>>) {
        convert_checked::<isize, i8>(src)
    }
}

impl ApproxFrom<isize, Wrapping> for i8 {
    type Err = NoError;

    open spec fn approx_from_spec(src: isize) -> Result<i8, NoError> {
        wrapping_spec::<isize, i8>(src)
    }

    fn approx_from(src: isize) -> (r: Result<i8, NoError>) {
        convert_wrapping::<isize, i8>(src)
    }
}

impl ValueFrom<isize> for i16 {
    type Err = RangeError<isize>;

    open spec fn value_from_spec(src: isize) -> Result<i16, RangeError<isize>> {
        checked_spec::<isize, i16>(src)
    }

    fn value_from(src: isize) -> (r: Result<i16, RangeError<isize>>) {
        convert_checked::<isize, i16>(src)
    }
}

impl ApproxFrom<isize, DefaultApprox> for i16 {
    type Err = RangeError<isize>;

    open spec fn approx_from_spec(src: isize) -> Result<i16, RangeError<isize>> {
        checked_spec::<isize, i16>(src)
    }

    fn approx_from(src: isize) -> (r: Result<i16, RangeError<isize>>) {
        convert_checked::<isize, i16>(src)
    }
}

impl ApproxFrom<isize, Wrapping> for i16 {
    type Err = NoError;

    open spec fn approx_from_spec(src: isize) -> Result<i16, NoError> {
        wrapping_spec::<isize, i16>(src)
    }

    fn approx_from(src: isize) -> (r: Result<i16, NoError>) {
        convert_wrapping::<isize, i16>(src)
    }
}

impl ValueFrom<isize> for i32 {
    type Err = RangeError<isize>;

    open spec fn value_from_spec(src: isize) -> Result<i32, RangeError<isize>> {
        checked_spec::<isize, i32>(src)
    }

    fn value_from(src: isize) -> (r: Result<i32, RangeError<isize>>) {
        convert_checked::<isize, i32>(src)
    }
}

impl ApproxFrom<isize, DefaultApprox> for i32 {
    type Err = RangeError<isize>;

    open spec fn approx_from_spec(src: isize) -> Result<i32, RangeError<isize>> {
        checked_spec::<isize, i32>(src)
    }

    fn approx_from(src: isize) -> (r: Result<i32, RangeError<isize>>) {
        convert_checked::<isize, i32>(src)
    }
}

impl ApproxFrom<isize, Wrapping> for i32 {
    type Err = NoError;

    open spec fn approx_from_spec(src: isize) -> Result<i32, NoError> {
        wrapping_spec::<isize, i32>(src)
    }

    fn approx_from(src: isize) -> (r: Result<i32, NoError>) {
        convert_wrapping::<isize, i32>(src)
    }
}

impl ValueFrom<isize> for i64 {
    type Err = NoError;

    open spec fn value_from_spec(src: isize) -> Result<i64, NoError> {
        exact_spec::<isize, i64>(src)
    }

    fn value_from(src: isize) -> (r: Result<i64, NoError>) {
        convert_exact::<isize, i64>(src)
    }
}

impl ApproxFrom<isize, DefaultApprox> for i64 {
    type Err = NoError;

    open spec fn approx_from_spec(src: isize) -> Result<i64, NoError> {
        exact_spec::<isize, i64>(src)
    }

    fn approx_from(src: isize) -> (r: Result<i64, NoError>) {
        convert_exact::<isize, i64>(src)
    }
}

impl ApproxFrom<isize, Wrapping> for i64 {
    type Err = NoError;

    open spec fn approx_from_spec(src: isize) -> Result<i64, NoError> {
        wrapping_spec::<isize, i64>(src)
    }

    fn approx_from(src: isize) -> (r: Result<i64, NoError>) {
        convert_wrapping::<isize, i64>(src)
    }
}

impl ValueFrom<isize> for u8 {
    type Err = RangeError<isize>;

    open spec fn value_from_spec(src: isize) -> Result<u8, RangeError<isize>> {
        checked_spec::<isize, u8>(src)
    }

    fn value_from(src: isize) -> (r: Result<u8, RangeError<isize>>) {
        convert_checked::<isize, u8>(src)
    }
}

impl ApproxFrom<isize, DefaultApprox> for u8 {
    type Err = RangeError<isize>;

    open spec fn approx_from_spec(src: isize) -> Result<u8, RangeError<isize>> {
        checked_spec::<isize, u8>(src)
    }

    fn approx_from(src: isize) -> (r: Result<u8, RangeError<isize>>) {
        convert_checked::<isize, u8>(src)
    }
}

impl ApproxFrom<isize, Wrapping> for u8 {
    type Err = NoError;

    open spec fn approx_from_spec(src: isize) -> Result<u8, NoError> {
        wrapping_spec::<isize, u8>(src)
    }

    fn approx_from(src: isize) -> (r: Result<u8, NoError>) {
        convert_wrapping::<isize, u8>(src)
    }
}

impl ValueFrom<isize> for u16 {
    type Err = RangeError<isize>;

    open spec fn value_from_spec(src: isize) -> Result<u16, RangeError<isize>> {
        checked_spec::<isize, u16>(src)
    }

    fn value_from(src: isize) -> (r: Result<u16, RangeError<isize>>) {
        convert_checked::<isize, u16>(src)
    }
}

impl ApproxFrom<isize, DefaultApprox> for u16 {
    type Err = RangeError<isize>;

    open spec fn approx_from_spec(src: isize) -> Result<u16, RangeError<isize>> {
        checked_spec::<isize, u16>(src)
    }

    fn approx_from(src: isize) -> (r: Result<u16, RangeError<isize>>) {
        convert_checked::<isize, u16>(src)
    }
}

impl ApproxFrom<isize, Wrapping> for u16 {
    type Err = NoError;

    open spec fn approx_from_spec(src: isize) -> Result<u16, NoError> {
        wrapping_spec::<isize, u16>(src)
    }

    fn approx_from(src: isize) -> (r: Result<u16, NoError>) {
        convert_wrapping::<isize, u16>(src)
    }
}

impl ValueFrom<isize> for u32 {
    type Err = RangeError<isize>;

    open spec fn value_from_spec(src: isize) -> Result<u32, RangeError<isize>> {
        checked_spec::<isize, u32>(src)
    }

    fn value_from(src: isize) -> (r: Result<u32, RangeError<isize>>) {
        convert_checked::<isize, u32>(src)
    }
}

impl ApproxFrom<isize, DefaultApprox> for u32 {
    type Err = RangeError<isize>;

    open spec fn approx_from_spec(src: isize) -> Result<u32, RangeError<isize>> {
        checked_spec::<isize, u32>(src)
    }

    fn approx_from(src: isize) -> (r: Result<u32, RangeError<isize>>) {
        convert_checked::<isize, u32>(src)
    }
}

impl ApproxFrom<isize, Wrapping> for u32 {
    type Err = NoError;

    open spec fn approx_from_spec(src: isize) -> Result<u32, NoError> {
        wrapping_spec::<isize, u32>(src)
    }

    fn approx_from(src: isize) -> (r: Result<u32, NoError>) {
        convert_wrapping::<isize, u32>(src)
    }
}

impl ValueFrom<isize> for u64 {
    type Err = NegOverflow<isize>;

    open spec fn value_from_spec(src: isize) -> Result<u64, NegOverflow<isize>> {
        neg_checked_spec::<isize, u64>(src)
    }

    fn value_from(src: isize) -> (r: Result<u64, NegOverflow<isize>>) {
        convert_neg_checked::<isize, u64>(src)
    }
}

impl ApproxFrom<isize, DefaultApprox> for u64 {
    type Err = NegOverflow<isize>;

    open spec fn approx_from_spec(src: isize) -> Result<u64, NegOverflow<isize>> {
        neg_checked_spec::<isize, u64>(src)
    }

    fn approx_from(src: isize) -> (r: Result<u64, NegOverflow<isize>>) {
        convert_neg_checked::<isize, u64>(src)
    }
}

impl ApproxFrom<isize, Wrapping> for u64 {
    type Err = NoError;

    open spec fn approx_from_spec(src: isize) -> Result<u64, NoError> {
        wrapping_spec::<isize, u64>(src)
    }

    fn approx_from(src: isize) -> (r: Result<u64, NoError>) {
        convert_wrapping::<isize, u64>(src)
    }
}

impl ValueFrom<isize> for usize {
    type Err = NegOverflow<isize>;

    open spec fn value_from_spec(src: isize) -> Result<usize, NegOverflow<isize>> {
        neg_checked_spec::<isize, usize>(src)
    }

    fn value_from(src: isize) -> (r: Result<usize, NegOverflow<isize>>) {
        convert_neg_checked::<isize, usize>(src)
    }
}

impl ApproxFrom<isize, DefaultApprox> for usize {
    type Err = NegOverflow<isize>;

    open spec fn approx_from_spec(src: isize) -> Result<usize, NegOverflow<isize>> {
        neg_checked_spec::<isize, usize>(src)
    }

    fn approx_from(src: isize) -> (r: Result<usize, NegOverflow<isize>>) {
        convert_neg_checked::<isize, usize>(src)
    }
}

impl ApproxFrom<isize, Wrapping> for usize {
    type Err = NoError;

    open spec fn approx_from_spec(src: isize) -> Result<usize, NoError> {
        wrapping_spec::<isize, usize>(src)
    }

    fn approx_from(src: isize) -> (r: Result<usize, NoError>) {
        convert_wrapping::<isize, usize>(src)
    }
}

impl ValueFrom<u8> for i8 {
    type Err = PosOverflow<u8>;

    open spec fn value_from_spec(src: u8) -> Result<i8, PosOverflow<u8>> {
        pos_checked_spec::<u8, i8>(src)
    }

    fn value_from(src: u8) -> (r: Result<i8, PosOverflow<u8>>) {
        convert_pos_checked::<u8, i8>(src)
    }
}

impl ApproxFrom<u8, DefaultApprox> for i8 {
    type Err = PosOverflow<u8>;

    open spec fn approx_from_spec(src: u8) -> Result<i8, PosOverflow<u8>> {
        pos_checked_spec::<u8, i8>(src)
    }

    fn approx_from(src: u8) -> (r: Result<i8, PosOverflow<u8>>) {
        convert_pos_checked::<u8, i8>(src)
    }
}

impl ApproxFrom<u8, Wrapping> for i8 {
    type Err = NoError;

    open spec fn approx_from_spec(src: u8) -> Result<i8, NoError> {
        wrapping_spec::<u8, i8>(src)
    }

    fn approx_from(src: u8) -> (r: Result<i8, NoError>) {
        convert_wrapping::<u8, i8>(src)
    }
}

impl ValueFrom<u8> for i16 {
    type Err = NoError;

    open spec fn value_from_spec(src: u8) -> Result<i16, NoError> {
        exact_spec::<u8, i16>(src)
    }

    fn value_from(src: u8) -> (r: Result<i16, NoError>) {
        convert_exact::<u8, i16>(src)
    }
}

impl ApproxFrom<u8, DefaultApprox> for i16 {
    type Err = NoError;

    open spec fn approx_from_spec(src: u8) -> Result<i16, NoError> {
        exact_spec::<u8, i16>(src)
    }

    fn approx_from(src: u8) -> (r: Result<i16, NoError>) {
        convert_exact::<u8, i16>(src)
    }
}

impl ApproxFrom<u8, Wrapping> for i16 {
    type Err = NoError;

    open spec fn approx_from_spec(src: u8) -> Result<i16, NoError> {
        wrapping_spec::<u8, i16>(src)
    }

    fn approx_from(src: u8) -> (r: Result<i16, NoError>) {
        convert_wrapping::<u8, i16>(src)
    }
}

impl ValueFrom<u8> for i32 {
    type Err = NoError;

    open spec fn value_from_spec(src: u8) -> Result<i32, NoError> {
        exact_spec::<u8, i32>(src)
    }

    fn value_from(src: u8) -> (r: Result<i32, NoError>) {
        convert_exact::<u8, i32>(src)
    }
}

impl ApproxFrom<u8, DefaultApprox> for i32 {
    type Err = NoError;

    open spec fn approx_from_spec(src: u8) -> Result<i32, NoError> {
        exact_spec::<u8, i32>(src)
    }

    fn approx_from(src: u8) -> (r: Result<i32, NoError>) {
        convert_exact::<u8, i32>(src)
    }
}

impl ApproxFrom<u8, Wrapping> for i32 {
    type Err = NoError;

    open spec fn approx_from_spec(src: u8) -> Result<i32, NoError> {
        wrapping_spec::<u8, i32>(src)
    }

    fn approx_from(src: u8) -> (r: Result<i32, NoError>) {
        convert_wrapping::<u8, i32>(src)
    }
}

impl ValueFrom<u8> for i64 {
    type Err = NoError;

    open spec fn value_from_spec(src: u8) -> Result<i64, NoError> {
        exact_spec::<u8, i64>(src)
    }

    fn value_from(src: u8) -> (r: Result<i64, NoError>) {
        convert_exact::<u8, i64>(src)
    }
}

impl ApproxFrom<u8, DefaultApprox> for i64 {
    type Err = NoError;

    open spec fn approx_from_spec(src: u8) -> Result<i64, NoError> {
        exact_spec::<u8, i64>(src)
    }

    fn approx_from(src: u8) -> (r: Result<i64, NoError>) {
        convert_exact::<u8, i64>(src)
    }
}

impl ApproxFrom<u8, Wrapping> for i64 {
    type Err = NoError;

    open spec fn approx_from_spec(src: u8) -> Result<i64, NoError> {
        wrapping_spec::<u8, i64>(src)
    }

    fn approx_from(src: u8) -> (r: Result<i64, NoError>) {
        convert_wrapping::<u8, i64>(src)
    }
}

impl ValueFrom<u8> for isize {
    type Err = NoError;

    open spec fn value_from_spec(src: u8) -> Result<isize, NoError> {
        exact_spec::<u8, isize>(src)
    }

    fn value_from(src: u8) -> (r: Result<isize, NoError>) {
        convert_exact::<u8, isize>(src)
    }
}

impl ApproxFrom<u8, DefaultApprox> for isize {
    type Err = NoError;

    open spec fn approx_from_spec(src: u8) -> Result<isize, NoError> {
        exact_spec::<u8, isize>(src)
    }

    fn approx_from(src: u8) -> (r: Result<isize, NoError>) {
        convert_exact::<u8, isize>(src)
    }
}

impl ApproxFrom<u8, Wrapping> for isize {
    type Err = NoError;

    open spec fn approx_from_spec(src: u8) -> Result<isize, NoError> {
        wrapping_spec::<u8, isize>(src)
    }

    fn approx_from(src: u8) -> (r: Result<isize, NoError>) {
        convert_wrapping::<u8, isize>(src)
    }
}

impl ValueFrom<u8> for u16 {
    type Err = NoError;

    open spec fn value_from_spec(src: u8) -> Result<u16, NoError> {
        exact_spec::<u8, u16>(src)
    }

    fn value_from(src: u8) -> (r: Result<u16, NoError>) {
        convert_exact::<u8, u16>(src)
    }
}

impl ApproxFrom<u8, DefaultApprox> for u16 {
    type Err = NoError;

    open spec fn approx_from_spec(src: u8) -> Result<u16, NoError> {
        exact_spec::<u8, u16>(src)
    }

    fn approx_from(src: u8) -> (r: Result<u16, NoError>) {
        convert_exact::<u8, u16>(src)
    }
}

impl ApproxFrom<u8, Wrapping> for u16 {
    type Err = NoError;

    open spec fn approx_from_spec(src: u8) -> Result<u16, NoError> {
        wrapping_spec::<u8, u16>(src)
    }

    fn approx_from(src: u8) -> (r: Result<u16, NoError>) {
        convert_wrapping::<u8, u16>(src)
    }
}

impl ValueFrom<u8> for u32 {
    type Err = NoError;

    open spec fn value_from_spec(src: u8) -> Result<u32, NoError> {
        exact_spec::<u8, u32>(src)
    }

    fn value_from(src: u8) -> (r: Result<u32, NoError>) {
        convert_exact::<u8, u32>(src)
    }
}

impl ApproxFrom<u8, DefaultApprox> for u32 {
    type Err = NoError;

    open spec fn approx_from_spec(src: u8) -> Result<u32, NoError> {
        exact_spec::<u8, u32>(src)
    }

    fn approx_from(src: u8) -> (r: Result<u32, NoError>) {
        convert_exact::<u8, u32>(src)
    }
}

impl ApproxFrom<u8, Wrapping> for u32 {
    type Err = NoError;

    open spec fn approx_from_spec(src: u8) -> Result<u32, NoError> {
        wrapping_spec::<u8, u32>(src)
    }

    fn approx_from(src: u8) -> (r: Result<u32, NoError>) {
        convert_wrapping::<u8, u32>(src)
    }
}

impl ValueFrom<u8> for u64 {
    type Err = NoError;

    open spec fn value_from_spec(src: u8) -> Result<u64, NoError> {
        exact_spec::<u8, u64>(src)
    }

    fn value_from(src: u8) -> (r: Result<u64, NoError>) {
        convert_exact::<u8, u64>(src)
    }
}

impl ApproxFrom<u8, DefaultApprox> for u64 {
    type Err = NoError;

    open spec fn approx_from_spec(src: u8) -> Result<u64, NoError> {
        exact_spec::<u8, u64>(src)
    }

    fn approx_from(src: u8) -> (r: Result<u64, NoError>) {
        convert_exact::<u8, u64>(src)
    }
}

impl ApproxFrom<u8, Wrapping> for u64 {
    type Err = NoError;

    open spec fn approx_from_spec(src: u8) -> Result<u64, NoError> {
        wrapping_spec::<u8, u64>(src)
    }

    fn approx_from(src: u8) -> (r: Result<u64, NoError>) {
        convert_wrapping::<u8, u64>(src)
    }
}

impl ValueFrom<u8> for usize {
    type Err = NoError;

    open spec fn value_from_spec(src: u8) -> Result<usize, NoError> {
        exact_spec::<u8, usize>(src)
    }

    fn value_from(src: u8) -> (r: Result<usize, NoError>) {
        convert_exact::<u8, usize>(src)
    }
}

impl ApproxFrom<u8, DefaultApprox> for usize {
    type Err = NoError;

    open spec fn approx_from_spec(src: u8) -> Result<usize, NoError> {
        exact_spec::<u8, usize>(src)
    }

    fn approx_from(src: u8) -> (r: Result<usize, NoError>) {
        convert_exact::<u8, usize>(src)
    }
}

impl ApproxFrom<u8, Wrapping> for usize {
    type Err = NoError;

    open spec fn approx_from_spec(src: u8) -> Result<usize, NoError> {
        wrapping_spec::<u8, usize>(src)
    }

    fn approx_from(src: u8) -> (r: Result<usize, NoError>) {
        convert_wrapping::<u8, usize>(src)
    }
}

impl ValueFrom<u16> for i8 {
    type Err = PosOverflow<u16>;

    open spec fn value_from_spec(src: u16) -> Result<i8, PosOverflow<u16>> {
        pos_checked_spec::<u16, i8>(src)
    }

    fn value_from(src: u16) -> (r: Result<i8, PosOverflow<u16>>) {
        convert_pos_checked::<u16, i8>(src)
    }
}

impl ApproxFrom<u16, DefaultApprox> for i8 {
    type Err = PosOverflow<u16>;

    open spec fn approx_from_spec(src: u16) -> Result<i8, PosOverflow<u16>> {
        pos_checked_spec::<u16, i8>(src)
    }

    fn approx_from(src: u16) -> (r: Result<i8, PosOverflow<u16>>) {
        convert_pos_checked::<u16, i8>(src)
    }
}

impl ApproxFrom<u16, Wrapping> for i8 {
    type Err = NoError;

    open spec fn approx_from_spec(src: u16) -> Result<i8, NoError> {
        wrapping_spec::<u16, i8>(src)
    }

    fn approx_from(src: u16) -> (r: Result<i8, NoError>) {
        convert_wrapping::<u16, i8>(src)
    }
}

impl ValueFrom<u16> for i16 {
    type Err = PosOverflow<u16>;

    open spec fn value_from_spec(src: u16) -> Result<i16, PosOverflow<u16>> {
        pos_checked_spec::<u16, i16>(src)
    }

    fn value_from(src: u16) -> (r: Result<i16, PosOverflow<u16>>) {
        convert_pos_checked::<u16, i16>(src)
    }
}

impl ApproxFrom<u16, DefaultApprox> for i16 {
    type Err = PosOverflow<u16>;

    open spec fn approx_from_spec(src: u16) -> Result<i16, PosOverflow<u16>> {
        pos_checked_spec::<u16, i16>(src)
    }

    fn approx_from(src: u16) -> (r: Result<i16, PosOverflow<u16>>) {
        convert_pos_checked::<u16, i16>(src)
    }
}

impl ApproxFrom<u16, Wrapping> for i16 {
    type Err = NoError;

    open spec fn approx_from_spec(src: u16) -> Result<i16, NoError> {
        wrapping_spec::<u16, i16>(src)
    }

    fn approx_from(src: u16) -> (r: Result<i16, NoError>) {
        convert_wrapping::<u16, i16>(src)
    }
}

impl ValueFrom<u16> for i32 {
    type Err = NoError;

    open spec fn value_from_spec(src: u16) -> Result<i32, NoError> {
        exact_spec::<u16, i32>(src)
    }

    fn value_from(src: u16) -> (r: Result<i32, NoError>) {
        convert_exact::<u16, i32>(src)
    }
}

impl ApproxFrom<u16, DefaultApprox> for i32 {
    type Err = NoError;

    open spec fn approx_from_spec(src: u16) -> Result<i32, NoError> {
        exact_spec::<u16, i32>(src)
    }

    fn approx_from(src: u16) -> (r: Result<i32, NoError>) {
        convert_exact::<u16, i32>(src)
    }
}

impl ApproxFrom<u16, Wrapping> for i32 {
    type Err = NoError;

    open spec fn approx_from_spec(src: u16) -> Result<i32, NoError> {
        wrapping_spec::<u16, i32>(src)
    }

    fn approx_from(src: u16) -> (r: Result<i32, NoError>) {
        convert_wrapping::<u16, i32>(src)
    }
}

impl ValueFrom<u16> for i64 {
    type Err = NoError;

    open spec fn value_from_spec(src: u16) -> Result<i64, NoError> {
        exact_spec::<u16, i64>(src)
    }

    fn value_from(src: u16) -> (r: Result<i64, NoError>) {
        convert_exact::<u16, i64>(src)
    }
}

impl ApproxFrom<u16, DefaultApprox> for i64 {
    type Err = NoError;

    open spec fn approx_from_spec(src: u16) -> Result<i64, NoError> {
        exact_spec::<u16, i64>(src)
    }

    fn approx_from(src: u16) -> (r: Result<i64, NoError>) {
        convert_exact::<u16, i64>(src)
    }
}

impl ApproxFrom<u16, Wrapping> for i64 {
    type Err = NoError;

    open spec fn approx_from_spec(src: u16) -> Result<i64, NoError> {
        wrapping_spec::<u16, i64>(src)
    }

    fn approx_from(src: u16) -> (r: Result<i64, NoError>) {
        convert_wrapping::<u16, i64>(src)
    }
}

impl ValueFrom<u16> for isize {
    type Err = NoError;

    open spec fn value_from_spec(src: u16) -> Result<isize, NoError> {
        exact_spec::<u16, isize>(src)
    }

    fn value_from(src: u16) -> (r: Result<isize, NoError>) {
        convert_exact::<u16, isize>(src)
    }
}

impl ApproxFrom<u16, DefaultApprox> for isize {
    type Err = NoError;

    open spec fn approx_from_spec(src: u16) -> Result<isize, NoError> {
        exact_spec::<u16, isize>(src)
    }

    fn approx_from(src: u16) -> (r: Result<isize, NoError>) {
        convert_exact::<u16, isize>(src)
    }
}

impl ApproxFrom<u16, Wrapping> for isize {
    type Err = NoError;

    open spec fn approx_from_spec(src: u16) -> Result<isize, NoError> {
        wrapping_spec::<u16, isize>(src)
    }

    fn approx_from(src: u16) -> (r: Result<isize, NoError>) {
        convert_wrapping::<u16, isize>(src)
    }
}

impl ValueFrom<u16> for u8 {
    type Err = PosOverflow<u16>;

    open spec fn value_from_spec(src: u16) -> Result<u8, PosOverflow<u16>> {
        pos_checked_spec::<u16, u8>(src)
    }

    fn value_from(src: u16) -> (r: Result<u8, PosOverflow<u16>>) {
        convert_pos_checked::<u16, u8>(src)
    }
}

impl ApproxFrom<u16, DefaultApprox> for u8 {
    type Err = PosOverflow<u16>;

    open spec fn approx_from_spec(src: u16) -> Result<u8, PosOverflow<u16>> {
        pos_checked_spec::<u16, u8>(src)
    }

    fn approx_from(src: u16) -> (r: Result<u8, PosOverflow<u16>>) {
        convert_pos_checked::<u16, u8>(src)
    }
}

impl ApproxFrom<u16, Wrapping> for u8 {
    type Err = NoError;

    open spec fn approx_from_spec(src: u16) -> Result<u8, NoError> {
        wrapping_spec::<u16, u8>(src)
    }

    fn approx_from(src: u16) -> (r: Result<u8, NoError>) {
        convert_wrapping::<u16, u8>(src)
    }
}

impl ValueFrom<u16> for u32 {
    type Err = NoError;

    open spec fn value_from_spec(src: u16) -> Result<u32, NoError> {
        exact_spec::<u16, u32>(src)
    }

    fn value_from(src: u16) -> (r: Result<u32, NoError>) {
        convert_exact::<u16, u32>(src)
    }
}

impl ApproxFrom<u16, DefaultApprox> for u32 {
    type Err = NoError;

    open spec fn approx_from_spec(src: u16) -> Result<u32, NoError> {
        exact_spec::<u16, u32>(src)
    }

    fn approx_from(src: u16) -> (r: Result<u32, NoError>) {
        convert_exact::<u16, u32>(src)
    }
}

impl ApproxFrom<u16, Wrapping> for u32 {
    type Err = NoError;

    open spec fn approx_from_spec(src: u16) -> Result<u32, NoError> {
        wrapping_spec::<u16, u32>(src)
    }

    fn approx_from(src: u16) -> (r: Result<u32, NoError>) {
        convert_wrapping::<u16, u32>(src)
    }
}

impl ValueFrom<u16> for u64 {
    type Err = NoError;

    open spec fn value_from_spec(src: u16) -> Result<u64, NoError> {
        exact_spec::<u16, u64>(src)
    }

    fn value_from(src: u16) -> (r: Result<u64, NoError>) {
        convert_exact::<u16, u64>(src)
    }
}

impl ApproxFrom<u16, DefaultApprox> for u64 {
    type Err = NoError;

    open spec fn approx_from_spec(src: u16) -> Result<u64, NoError> {
        exact_spec::<u16, u64>(src)
    }

    fn approx_from(src: u16) -> (r: Result<u64, NoError>) {
        convert_exact::<u16, u64>(src)
    }
}

impl ApproxFrom<u16, Wrapping> for u64 {
    type Err = NoError;

    open spec fn approx_from_spec(src: u16) -> Result<u64, NoError> {
        wrapping_spec::<u16, u64>(src)
    }

    fn approx_from(src: u16) -> (r: Result<u64, NoError>) {
        convert_wrapping::<u16, u64>(src)
    }
}

impl ValueFrom<u16> for usize {
    type Err = NoError;

    open spec fn value_from_spec(src: u16) -> Result<usize, NoError> {
        exact_spec::<u16, usize>(src)
    }

    fn value_from(src: u16) -> (r: Result<usize, NoError>) {
        convert_exact::<u16, usize>(src)
    }
}

impl ApproxFrom<u16, DefaultApprox> for usize {
    type Err = NoError;

    open spec fn approx_from_spec(src: u16) -> Result<usize, NoError> {
        exact_spec::<u16, usize>(src)
    }

    fn approx_from(src: u16) -> (r: Result<usize, NoError>) {
        convert_exact::<u16, usize>(src)
    }
}

impl ApproxFrom<u16, Wrapping> for usize {
    type Err = NoError;

    open spec fn approx_from_spec(src: u16) -> Result<usize, NoError> {
        wrapping_spec::<u16, usize>(src)
    }

    fn approx_from(src: u16) -> (r: Result<usize, NoError>) {
        convert_wrapping::<u16, usize>(src)
    }
}

impl ValueFrom<u32> for i8 {
    type Err = PosOverflow<u32>;

    open spec fn value_from_spec(src: u32) -> Result<i8, PosOverflow<u32>> {
        pos_checked_spec::<u32, i8>(src)
    }

    fn value_from(src: u32) -> (r: Result<i8, PosOverflow<u32>>) {
        convert_pos_checked::<u32, i8>(src)
    }
}

impl ApproxFrom<u32, DefaultApprox> for i8 {
    type Err = PosOverflow<u32>;

    open spec fn approx_from_spec(src: u32) -> Result<i8, PosOverflow<u32>> {
        pos_checked_spec::<u32, i8>(src)
    }

    fn approx_from(src: u32) -> (r: Result<i8, PosOverflow<u32>>) {
        convert_pos_checked::<u32, i8>(src)
    }
}

impl ApproxFrom<u32, Wrapping> for i8 {
    type Err = NoError;

    open spec fn approx_from_spec(src: u32) -> Result<i8, NoError> {
        wrapping_spec::<u32, i8>(src)
    }

    fn approx_from(src: u32) -> (r: Result<i8, NoError>) {
        convert_wrapping::<u32, i8>(src)
    }
}

impl ValueFrom<u32> for i16 {
    type Err = PosOverflow<u32>;

    open spec fn value_from_spec(src: u32) -> Result<i16, PosOverflow<u32>> {
        pos_checked_spec::<u32, i16>(src)
    }

    fn value_from(src: u32) -> (r: Result<i16, PosOverflow<u32>>) {
        convert_pos_checked::<u32, i16>(src)
    }
}

impl ApproxFrom<u32, DefaultApprox> for i16 {
    type Err = PosOverflow<u32>;

    open spec fn approx_from_spec(src: u32) -> Result<i16, PosOverflow<u32>> {
        pos_checked_spec::<u32, i16>(src)
    }

    fn approx_from(src: u32) -> (r: Result<i16, PosOverflow<u32>>) {
        convert_pos_checked::<u32, i16>(src)
    }
}

impl ApproxFrom<u32, Wrapping> for i16 {
    type Err = NoError;

    open spec fn approx_from_spec(src: u32) -> Result<i16, NoError> {
        wrapping_spec::<u32, i16>(src)
    }

    fn approx_from(src: u32) -> (r: Result<i16, NoError>) {
        convert_wrapping::<u32, i16>(src)
    }
}

impl ValueFrom<u32> for i32 {
    type Err = PosOverflow<u32>;

    open spec fn value_from_spec(src: u32) -> Result<i32, PosOverflow<u32>> {
        pos_checked_spec::<u32, i32>(src)
    }

    fn value_from(src: u32) -> (r: Result<i32, PosOverflow<u32>>) {
        convert_pos_checked::<u32, i32>(src)
    }
}

impl ApproxFrom<u32, DefaultApprox> for i32 {
    type Err = PosOverflow<u32>;

    open spec fn approx_from_spec(src: u32) -> Result<i32, PosOverflow<u32>> {
        pos_checked_spec::<u32, i32>(src)
    }

    fn approx_from(src: u32) -> (r: Result<i32, PosOverflow<u32>>) {
        convert_pos_checked::<u32, i32>(src)
    }
}

impl ApproxFrom<u32, Wrapping> for i32 {
    type Err = NoError;

    open spec fn approx_from_spec(src: u32) -> Result<i32, NoError> {
        wrapping_spec::<u32, i32>(src)
    }

    fn approx_from(src: u32) -> (r: Result<i32, NoError>) {
        convert_wrapping::<u32, i32>(src)
    }
}

impl ValueFrom<u32> for i64 {
    type Err = NoError;

    open spec fn value_from_spec(src: u32) -> Result<i64, NoError> {
        exact_spec::<u32, i64>(src)
    }

    fn value_from(src: u32) -> (r: Result<i64, NoError>) {
        convert_exact::<u32, i64>(src)
    }
}

impl ApproxFrom<u32, DefaultApprox> for i64 {
    type Err = NoError;

    open spec fn approx_from_spec(src: u32) -> Result<i64, NoError> {
        exact_spec::<u32, i64>(src)
    }

    fn approx_from(src: u32) -> (r: Result<i64, NoError>) {
        convert_exact::<u32, i64>(src)
    }
}

impl ApproxFrom<u32, Wrapping> for i64 {
    type Err = NoError;

    open spec fn approx_from_spec(src: u32) -> Result<i64, NoError> {
        wrapping_spec::<u32, i64>(src)
    }

    fn approx_from(src: u32) -> (r: Result<i64, NoError>) {
        convert_wrapping::<u32, i64>(src)
    }
}

impl ValueFrom<u32> for isize {
    type Err = PosOverflow<u32>;

    open spec fn value_from_spec(src: u32) -> Result<isize, PosOverflow<u32>> {
        pos_checked_spec::<u32, isize>(src)
    }

    fn value_from(src: u32) -> (r: Result<isize, PosOverflow<u32>>) {
        convert_pos_checked::<u32, isize>(src)
    }
}

impl ApproxFrom<u32, DefaultApprox> for isize {
    type Err = PosOverflow<u32>;

    open spec fn approx_from_spec(src: u32) -> Result<isize, PosOverflow<u32>> {
        pos_checked_spec::<u32, isize>(src)
    }

    fn approx_from(src: u32) -> (r: Result<isize, PosOverflow<u32>>) {
        convert_pos_checked::<u32, isize>(src)
    }
}

impl ApproxFrom<u32, Wrapping> for isize {
    type Err = NoError;

    open spec fn approx_from_spec(src: u32) -> Result<isize, NoError> {
        wrapping_spec::<u32, isize>(src)
    }

    fn approx_from(src: u32) -> (r: Result<isize, NoError>) {
        convert_wrapping::<u32, isize>(src)
    }
}

impl ValueFrom<u32> for u8 {
    type Err = PosOverflow<u32>;

    open spec fn value_from_spec(src: u32) -> Result<u8, PosOverflow<u32>> {
        pos_checked_spec::<u32, u8>(src)
    }

    fn value_from(src: u32) -> (r: Result<u8, PosOverflow<u32>>) {
        convert_pos_checked::<u32, u8>(src)
    }
}

impl ApproxFrom<u32, DefaultApprox> for u8 {
    type Err = PosOverflow<u32>;

    open spec fn approx_from_spec(src: u32) -> Result<u8, PosOverflow<u32>> {
        pos_checked_spec::<u32, u8>(src)
    }

    fn approx_from(src: u32) -> (r: Result<u8, PosOverflow<u32>>) {
        convert_pos_checked::<u32, u8>(src)
    }
}

impl ApproxFrom<u32, Wrapping> for u8 {
    type Err = NoError;

    open spec fn approx_from_spec(src: u32) -> Result<u8, NoError> {
        wrapping_spec::<u32, u8>(src)
    }

    fn approx_from(src: u32) -> (r: Result<u8, NoError>) {
        convert_wrapping::<u32, u8>(src)
    }
}

impl ValueFrom<u32> for u16 {
    type Err = PosOverflow<u32>;

    open spec fn value_from_spec(src: u32) -> Result<u16, PosOverflow<u32>> {
        pos_checked_spec::<u32, u16>(src)
    }

    fn value_from(src: u32) -> (r: Result<u16, PosOverflow<u32>>) {
        convert_pos_checked::<u32, u16>(src)
    }
}

impl ApproxFrom<u32, DefaultApprox> for u16 {
    type Err = PosOverflow<u32>;

    open spec fn approx_from_spec(src: u32) -> Result<u16, PosOverflow<u32>> {
        pos_checked_spec::<u32, u16>(src)
    }

    fn approx_from(src: u32) -> (r: Result<u16, PosOverflow<u32>>) {
        convert_pos_checked::<u32, u16>(src)
    }
}

impl ApproxFrom<u32, Wrapping> for u16 {
    type Err = NoError;

    open spec fn approx_from_spec(src: u32) -> Result<u16, NoError> {
        wrapping_spec::<u32, u16>(src)
    }

    fn approx_from(src: u32) -> (r: Result<u16, NoError>) {
        convert_wrapping::<u32, u16>(src)
    }
}

impl ValueFrom<u32> for u64 {
    type Err = NoError;

    open spec fn value_from_spec(src: u32) -> Result<u64, NoError> {
        exact_spec::<u32, u64>(src)
    }

    fn value_from(src: u32) -> (r: Result<u64, NoError>) {
        convert_exact::<u32, u64>(src)
    }
}

impl ApproxFrom<u32, DefaultApprox> for u64 {
    type Err = NoError;

    open spec fn approx_from_spec(src: u32) -> Result<u64, NoError> {
        exact_spec::<u32, u64>(src)
    }

    fn approx_from(src: u32) -> (r: Result<u64, NoError>) {
        convert_exact::<u32, u64>(src)
    }
}

impl ApproxFrom<u32, Wrapping> for u64 {
    type Err = NoError;

    open spec fn approx_from_spec(src: u32) -> Result<u64, NoError> {
        wrapping_spec::<u32, u64>(src)
    }

    fn approx_from(src: u32) -> (r: Result<u64, NoError>) {
        convert_wrapping::<u32, u64>(src)
    }
}

impl ValueFrom<u32> for usize {
    type Err = NoError;

    open spec fn value_from_spec(src: u32) -> Result<usize, NoError> {
        exact_spec::<u32, usize>(src)
    }

    fn value_from(src: u32) -> (r: Result<usize, NoError>) {
        convert_exact::<u32, usize>(src)
    }
}

impl ApproxFrom<u32, DefaultApprox> for usize {
    type Err = NoError;

    open spec fn approx_from_spec(src: u32) -> Result<usize, NoError> {
        exact_spec::<u32, usize>(src)
    }

    fn approx_from(src: u32) -> (r: Result<usize, NoError>) {
        convert_exact::<u32, usize>(src)
    }
}

impl ApproxFrom<u32, Wrapping> for usize {
    type Err = NoError;

    open spec fn approx_from_spec(src: u32) -> Result<usize, NoError> {
        wrapping_spec::<u32, usize>(src)
    }

    fn approx_from(src: u32) -> (r: Result<usize, NoError>) {
        convert_wrapping::<u32, usize>(src)
    }
}

impl ValueFrom<u64> for i8 {
    type Err = PosOverflow<u64>;

    open spec fn value_from_spec(src: u64) -> Result<i8, PosOverflow<u64>> {
        pos_checked_spec::<u64, i8>(src)
    }

    fn value_from(src: u64) -> (r: Result<i8, PosOverflow<u64>>) {
        convert_pos_checked::<u64, i8>(src)
    }
}

impl ApproxFrom<u64, DefaultApprox> for i8 {
    type Err = PosOverflow<u64>;

    open spec fn approx_from_spec(src: u64) -> Result<i8, PosOverflow<u64>> {
        pos_checked_spec::<u64, i8>(src)
    }

    fn approx_from(src: u64) -> (r: Result<i8, PosOverflow<u64>>) {
        convert_pos_checked::<u64, i8>(src)
    }
}

impl ApproxFrom<u64, Wrapping> for i8 {
    type Err = NoError;

    open spec fn approx_from_spec(src: u64) -> Result<i8, NoError> {
        wrapping_spec::<u64, i8>(src)
    }

    fn approx_from(src: u64) -> (r: Result<i8, NoError>) {
        convert_wrapping::<u64, i8>(src)
    }
}

impl ValueFrom<u64> for i16 {
    type Err = PosOverflow<u64>;

    open spec fn value_from_spec(src: u64) -> Result<i16, PosOverflow<u64>> {
        pos_checked_spec::<u64, i16>(src)
    }

    fn value_from(src: u64) -> (r: Result<i16, PosOverflow<u64>>) {
        convert_pos_checked::<u64, i16>(src)
    }
}

impl ApproxFrom<u64, DefaultApprox> for i16 {
    type Err = PosOverflow<u64>;

    open spec fn approx_from_spec(src: u64) -> Result<i16, PosOverflow<u64>> {
        pos_checked_spec::<u64, i16>(src)
    }

    fn approx_from(src: u64) -> (r: Result<i16, PosOverflow<u64>>) {
        convert_pos_checked::<u64, i16>(src)
    }
}

impl ApproxFrom<u64, Wrapping> for i16 {
    type Err = NoError;

    open spec fn approx_from_spec(src: u64) -> Result<i16, NoError> {
        wrapping_spec::<u64, i16>(src)
    }

    fn approx_from(src: u64) -> (r: Result<i16, NoError>) {
        convert_wrapping::<u64, i16>(src)
    }
}

impl ValueFrom<u64> for i32 {
    type Err = PosOverflow<u64>;

    open spec fn value_from_spec(src: u64) -> Result<i32, PosOverflow<u64>> {
        pos_checked_spec::<u64, i32>(src)
    }

    fn value_from(src: u64) -> (r: Result<i32, PosOverflow<u64>>) {
        convert_pos_checked::<u64, i32>(src)
    }
}

impl ApproxFrom<u64, DefaultApprox> for i32 {
    type Err = PosOverflow<u64>;

    open spec fn approx_from_spec(src: u64) -> Result<i32, PosOverflow<u64>> {
        pos_checked_spec::<u64, i32>(src)
    }

    fn approx_from(src: u64) -> (r: Result<i32, PosOverflow<u64>>) {
        convert_pos_checked::<u64, i32>(src)
    }
}

impl ApproxFrom<u64, Wrapping> for i32 {
    type Err = NoError;

    open spec fn approx_from_spec(src: u64) -> Result<i32, NoError> {
        wrapping_spec::<u64, i32>(src)
    }

    fn approx_from(src: u64) -> (r: Result<i32, NoError>) {
        convert_wrapping::<u64, i32>(src)
    }
}

impl ValueFrom<u64> for i64 {
    type Err = PosOverflow<u64>;

    open spec fn value_from_spec(src: u64) -> Result<i64, PosOverflow<u64>> {
        pos_checked_spec::<u64, i64>(src)
    }

    fn value_from(src: u64) -> (r: Result<i64, PosOverflow<u64>>) {
        convert_pos_checked::<u64, i64>(src)
    }
}

impl ApproxFrom<u64, DefaultApprox> for i64 {
    type Err = PosOverflow<u64>;

    open spec fn approx_from_spec(src: u64) -> Result<i64, PosOverflow<u64>> {
        pos_checked_spec::<u64, i64>(src)
    }

    fn approx_from(src: u64) -> (r: Result<i64, PosOverflow<u64>>) {
        convert_pos_checked::<u64, i64>(src)
    }
}

impl ApproxFrom<u64, Wrapping> for i64 {
    type Err = NoError;

    open spec fn approx_from_spec(src: u64) -> Result<i64, NoError> {
        wrapping_spec::<u64, i64>(src)
    }

    fn approx_from(src: u64) -> (r: Result<i64, NoError>) {
        convert_wrapping::<u64, i64>(src)
    }
}

impl ValueFrom<u64> for isize {
    type Err = PosOverflow<u64>;

    open spec fn value_from_spec(src: u64) -> Result<isize, PosOverflow<u64>> {
        pos_checked_spec::<u64, isize>(src)
    }

    fn value_from(src: u64) -> (r: Result<isize, PosOverflow<u64>>) {
        convert_pos_checked::<u64, isize>(src)
    }
}

impl ApproxFrom<u64, DefaultApprox> for isize {
    type Err = PosOverflow<u64>;

    open spec fn approx_from_spec(src: u64) -> Result<isize, PosOverflow<u64>> {
        pos_checked_spec::<u64, isize>(src)
    }

    fn approx_from(src: u64) -> (r: Result<isize, PosOverflow<u64>>) {
        convert_pos_checked::<u64, isize>(src)
    }
}

impl ApproxFrom<u64, Wrapping> for isize {
    type Err = NoError;

    open spec fn approx_from_spec(src: u64) -> Result<isize, NoError> {
        wrapping_spec::<u64, isize>(src)
    }

    fn approx_from(src: u64) -> (r: Result<isize, NoError>) {
        convert_wrapping::<u64, isize>(src)
    }
}

impl ValueFrom<u64> for u8 {
    type Err = PosOverflow<u64>;

    open spec fn value_from_spec(src: u64) -> Result<u8, PosOverflow<u64>> {
        pos_checked_spec::<u64, u8>(src)
    }

    fn value_from(src: u64) -> (r: Result<u8, PosOverflow<u64>>) {
        convert_pos_checked::<u64, u8>(src)
    }
}

impl ApproxFrom<u64, DefaultApprox> for u8 {
    type Err = PosOverflow<u64>;

    open spec fn approx_from_spec(src: u64) -> Result<u8, PosOverflow<u64>> {
        pos_checked_spec::<u64, u8>(src)
    }

    fn approx_from(src: u64) -> (r: Result<u8, PosOverflow<u64>>) {
        convert_pos_checked::<u64, u8>(src)
    }
}

impl ApproxFrom<u64, Wrapping> for u8 {
    type Err = NoError;

    open spec fn approx_from_spec(src: u64) -> Result<u8, NoError> {
        wrapping_spec::<u64, u8>(src)
    }

    fn approx_from(src: u64) -> (r: Result<u8, NoError>) {
        convert_wrapping::<u64, u8>(src)
    }
}

impl ValueFrom<u64> for u16 {
    type Err = PosOverflow<u64>;

    open spec fn value_from_spec(src: u64) -> Result<u16, PosOverflow<u64>> {
        pos_checked_spec::<u64, u16>(src)
    }

    fn value_from(src: u64) -> (r: Result<u16, PosOverflow<u64>>) {
        convert_pos_checked::<u64, u16>(src)
    }
}

impl ApproxFrom<u64, DefaultApprox> for u16 {
    type Err = PosOverflow<u64>;

    open spec fn approx_from_spec(src: u64) -> Result<u16, PosOverflow<u64>> {
        pos_checked_spec::<u64, u16>(src)
    }

    fn approx_from(src: u64) -> (r: Result<u16, PosOverflow<u64>>) {
        convert_pos_checked::<u64, u16>(src)
    }
}

impl ApproxFrom<u64, Wrapping> for u16 {
    type Err = NoError;

    open spec fn approx_from_spec(src: u64) -> Result<u16, NoError> {
        wrapping_spec::<u64, u16>(src)
    }

    fn approx_from(src: u64) -> (r: Result<u16, NoError>) {
        convert_wrapping::<u64, u16>(src)
    }
}

impl ValueFrom<u64> for u32 {
    type Err = PosOverflow<u64>;

    open spec fn value_from_spec(src: u64) -> Result<u32, PosOverflow<u64>> {
        pos_checked_spec::<u64, u32>(src)
    }

    fn value_from(src: u64) -> (r: Result<u32, PosOverflow<u64>>) {
        convert_pos_checked::<u64, u32>(src)
    }
}

impl ApproxFrom<u64, DefaultApprox> for u32 {
    type Err = PosOverflow<u64>;

    open spec fn approx_from_spec(src: u64) -> Result<u32, PosOverflow<u64>> {
        pos_checked_spec::<u64, u32>(src)
    }

    fn approx_from(src: u64) -> (r: Result<u32, PosOverflow<u64>>) {
        convert_pos_checked::<u64, u32>(src)
    }
}

impl ApproxFrom<u64, Wrapping> for u32 {
    type Err = NoError;

    open spec fn approx_from_spec(src: u64) -> Result<u32, NoError> {
        wrapping_spec::<u64, u32>(src)
    }

    fn approx_from(src: u64) -> (r: Result<u32, NoError>) {
        convert_wrapping::<u64, u32>(src)
    }
}

impl ValueFrom<u64> for usize {
    type Err = PosOverflow<u64>;

    open spec fn value_from_spec(src: u64) -> Result<usize, PosOverflow<u64>> {
        pos_checked_spec::<u64, usize>(src)
    }

    fn value_from(src: u64) -> (r: Result<usize, PosOverflow<u64>>) {
        convert_pos_checked::<u64, usize>(src)
    }
}

impl ApproxFrom<u64, DefaultApprox> for usize {
    type Err = PosOverflow<u64>;

    open spec fn approx_from_spec(src: u64) -> Result<usize, PosOverflow<u64>> {
        pos_checked_spec::<u64, usize>(src)
    }

    fn approx_from(src: u64) -> (r: Result<usize, PosOverflow<u64>>) {
        convert_pos_checked::<u64, usize>(src)
    }
}

impl ApproxFrom<u64, Wrapping> for usize {
    type Err = NoError;

    open spec fn approx_from_spec(src: u64) -> Result<usize, NoError> {
        wrapping_spec::<u64, usize>(src)
    }

    fn approx_from(src: u64) -> (r: Result<usize, NoError>) {
        convert_wrapping::<u64, usize>(src)
    }
}

impl ValueFrom<usize> for i8 {
    type Err = PosOverflow<usize>;

    open spec fn value_from_spec(src: usize) -> Result<i8, PosOverflow<usize>> {
        pos_checked_spec::<usize, i8>(src)
    }

    fn value_from(src: usize) -> (r: Result<i8, PosOverflow<usize>>) {
        convert_pos_checked::<usize, i8>(src)
    }
}

impl ApproxFrom<usize, DefaultApprox> for i8 {
    type Err = PosOverflow<usize>;

    open spec fn approx_from_spec(src: usize) -> Result<i8, PosOverflow<usize>> {
        pos_checked_spec::<usize, i8>(src)
    }

    fn approx_from(src: usize) -> (r: Result<i8, PosOverflow<usize>>) {
        convert_pos_checked::<usize, i8>(src)
    }
}

impl ApproxFrom<usize, Wrapping> for i8 {
    type Err = NoError;

    open spec fn approx_from_spec(src: usize) -> Result<i8, NoError> {
        wrapping_spec::<usize, i8>(src)
    }

    fn approx_from(src: usize) -> (r: Result<i8, NoError>) {
        convert_wrapping::<usize, i8>(src)
    }
}

impl ValueFrom<usize> for i16 {
    type Err = PosOverflow<usize>;

    open spec fn value_from_spec(src: usize) -> Result<i16, PosOverflow<usize>> {
        pos_checked_spec::<usize, i16>(src)
    }

    fn value_from(src: usize) -> (r: Result<i16, PosOverflow<usize>>) {
        convert_pos_checked::<usize, i16>(src)
    }
}

impl ApproxFrom<usize, DefaultApprox> for i16 {
    type Err = PosOverflow<usize>;

    open spec fn approx_from_spec(src: usize) -> Result<i16, PosOverflow<usize>> {
        pos_checked_spec::<usize, i16>(src)
    }

    fn approx_from(src: usize) -> (r: Result<i16, PosOverflow<usize>>) {
        convert_pos_checked::<usize, i16>(src)
    }
}

impl ApproxFrom<usize, Wrapping> for i16 {
    type Err = NoError;

    open spec fn approx_from_spec(src: usize) -> Result<i16, NoError> {
        wrapping_spec::<usize, i16>(src)
    }

    fn approx_from(src: usize) -> (r: Result<i16, NoError>) {
        convert_wrapping::<usize, i16>(src)
    }
}

impl ValueFrom<usize> for i32 {
    type Err = PosOverflow<usize>;

    open spec fn value_from_spec(src: usize) -> Result<i32, PosOverflow<usize>> {
        pos_checked_spec::<usize, i32>(src)
    }

    fn value_from(src: usize) -> (r: Result<i32, PosOverflow<usize>>) {
        convert_pos_checked::<usize, i32>(src)
    }
}

impl ApproxFrom<usize, DefaultApprox> for i32 {
    type Err = PosOverflow<usize>;

    open spec fn approx_from_spec(src: usize) -> Result<i32, PosOverflow<usize>> {
        pos_checked_spec::<usize, i32>(src)
    }

    fn approx_from(src: usize) -> (r: Result<i32, PosOverflow<usize>>) {
        convert_pos_checked::<usize, i32>(src)
    }
}

impl ApproxFrom<usize, Wrapping> for i32 {
    type Err = NoError;

    open spec fn approx_from_spec(src: usize) -> Result<i32, NoError> {
        wrapping_spec::<usize, i32>(src)
    }

    fn approx_from(src: usize) -> (r: Result<i32, NoError>) {
        convert_wrapping::<usize, i32>(src)
    }
}

impl ValueFrom<usize> for i64 {
    type Err = PosOverflow<usize>;

    open spec fn value_from_spec(src: usize) -> Result<i64, PosOverflow<usize>> {
        pos_checked_spec::<usize, i64>(src)
    }

    fn value_from(src: usize) -> (r: Result<i64, PosOverflow<usize>>) {
        convert_pos_checked::<usize, i64>(src)
    }
}

impl ApproxFrom<usize, DefaultApprox> for i64 {
    type Err = PosOverflow<usize>;

    open spec fn approx_from_spec(src: usize) -> Result<i64, PosOverflow<usize>> {
        pos_checked_spec::<usize, i64>(src)
    }

    fn approx_from(src: usize) -> (r: Result<i64, PosOverflow<usize>>) {
        convert_pos_checked::<usize, i64>(src)
    }
}

impl ApproxFrom<usize, Wrapping> for i64 {
    type Err = NoError;

    open spec fn approx_from_spec(src: usize) -> Result<i64, NoError> {
        wrapping_spec::<usize, i64>(src)
    }

    fn approx_from(src: usize) -> (r: Result<i64, NoError>) {
        convert_wrapping::<usize, i64>(src)
    }
}

impl ValueFrom<usize> for isize {
    type Err = PosOverflow<usize>;

    open spec fn value_from_spec(src: usize) -> Result<isize, PosOverflow<usize>> {
        pos_checked_spec::<usize, isize>(src)
    }

    fn value_from(src: usize) -> (r: Result<isize, PosOverflow<usize>>) {
        convert_pos_checked::<usize, isize>(src)
    }
}

impl ApproxFrom<usize, DefaultApprox> for isize {
    type Err = PosOverflow<usize>;

    open spec fn approx_from_spec(src: usize) -> Result<isize, PosOverflow<usize>> {
        pos_checked_spec::<usize, isize>(src)
    }

    fn approx_from(src: usize) -> (r: Result<isize, PosOverflow<usize>>) {
        convert_pos_checked::<usize, isize>(src)
    }
}

impl ApproxFrom<usize, Wrapping> for isize {
    type Err = NoError;

    open spec fn approx_from_spec(src: usize) -> Result<isize, NoError> {
        wrapping_spec::<usize, isize>(src)
    }

    fn approx_from(src: usize) -> (r: Result<isize, NoError>) {
        convert_wrapping::<usize, isize>(src)
    }
}

impl ValueFrom<usize> for u8 {
    type Err = PosOverflow<usize>;

    open spec fn value_from_spec(src: usize) -> Result<u8, PosOverflow<usize>> {
        pos_checked_spec::<usize, u8>(src)
    }

    fn value_from(src: usize) -> (r: Result<u8, PosOverflow<usize>>) {
        convert_pos_checked::<usize, u8>(src)
    }
}

impl ApproxFrom<usize, DefaultApprox> for u8 {
    type Err = PosOverflow<usize>;

    open spec fn approx_from_spec(src: usize) -> Result<u8, PosOverflow<usize>> {
        pos_checked_spec::<usize, u8>(src)
    }

    fn approx_from(src: usize) -> (r: Result<u8, PosOverflow<usize>>) {
        convert_pos_checked::<usize, u8>(src)
    }
}

impl ApproxFrom<usize, Wrapping> for u8 {
    type Err = NoError;

    open spec fn approx_from_spec(src: usize) -> Result<u8, NoError> {
        wrapping_spec::<usize, u8>(src)
    }

    fn approx_from(src: usize) -> (r: Result<u8, NoError>) {
        convert_wrapping::<usize, u8>(src)
    }
}

impl ValueFrom<usize> for u16 {
    type Err = PosOverflow<usize>;

    open spec fn value_from_spec(src: usize) -> Result<u16, PosOverflow<usize>> {
        pos_checked_spec::<usize, u16>(src)
    }

    fn value_from(src: usize) -> (r: Result<u16, PosOverflow<usize>>) {
        convert_pos_checked::<usize, u16>(src)
    }
}

impl ApproxFrom<usize, DefaultApprox> for u16 {
    type Err = PosOverflow<usize>;

    open spec fn approx_from_spec(src: usize) -> Result<u16, PosOverflow<usize>> {
        pos_checked_spec::<usize, u16>(src)
    }

    fn approx_from(src: usize) -> (r: Result<u16, PosOverflow<usize>>) {
        convert_pos_checked::<usize, u16>(src)
    }
}

impl ApproxFrom<usize, Wrapping> for u16 {
    type Err = NoError;

    open spec fn approx_from_spec(src: usize) -> Result<u16, NoError> {
        wrapping_spec::<usize, u16>(src)
    }

    fn approx_from(src: usize) -> (r: Result<u16, NoError>) {
        convert_wrapping::<usize, u16>(src)
    }
}

impl ValueFrom<usize> for u32 {
    type Err = PosOverflow<usize>;

    open spec fn value_from_spec(src: usize) -> Result<u32, PosOverflow<usize>> {
        pos_checked_spec::<usize, u32>(src)
    }

    fn value_from(src: usize) -> (r: Result<u32, PosOverflow<usize>>) {
        convert_pos_checked::<usize, u32>(src)
    }
}

impl ApproxFrom<usize, DefaultApprox> for u32 {
    type Err = PosOverflow<usize>;

    open spec fn approx_from_spec(src: usize) -> Result<u32, PosOverflow<usize>> {
        pos_checked_spec::<usize, u32>(src)
    }

    fn approx_from(src: usize) -> (r: Result<u32, PosOverflow<usize>>) {
        convert_pos_checked::<usize, u32>(src)
    }
}

impl ApproxFrom<usize, Wrapping> for u32 {
    type Err = NoError;

    open spec fn approx_from_spec(src: usize) -> Result<u32, NoError> {
        wrapping_spec::<usize, u32>(src)
    }

    fn approx_from(src: usize) -> (r: Result<u32, NoError>) {
        convert_wrapping::<usize, u32>(src)
    }
}

impl ValueFrom<usize> for u64 {
    type Err = NoError;

    open spec fn value_from_spec(src: usize) -> Result<u64, NoError> {
        exact_spec::<usize, u64>(src)
    }

    fn value_from(src: usize) -> (r: Result<u64, NoError>) {
        convert_exact::<usize, u64>(src)
    }
}

impl ApproxFrom<usize, DefaultApprox> for u64 {
    type Err = NoError;

    open spec fn approx_from_spec(src: usize) -> Result<u64, NoError> {
        exact_spec::<usize, u64>(src)
    }

    fn approx_from(src: usize) -> (r: Result<u64, NoError>) {
        convert_exact::<usize, u64>(src)
    }
}

impl ApproxFrom<usize, Wrapping> for u64 {
    type Err = NoError;

    open spec fn approx_from_spec(src: usize) -> Result<u64, NoError> {
        wrapping_spec::<usize, u64>(src)
    }

    fn approx_from(src: usize) -> (r: Result<u64, NoError>) {
        convert_wrapping::<usize, u64>(src)
    }
}

} // verus!
