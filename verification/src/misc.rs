//! Supporting traits for the fallback utilities: the saturation bounds of
//! a type, its designated invalid sentinel, and its signed infinities.

use vstd::prelude::*;

verus! {

/// A type with a least and a greatest value, toward which an overflowing
/// conversion can saturate.
pub trait Saturated: Copy + Sized {
    /// The least value of the type.
    spec fn saturated_min_spec() -> Self;

    /// The greatest value of the type.
    spec fn saturated_max_spec() -> Self;

    /// Returns the least value of the type.
    fn saturated_min() -> (r: Self)
        ensures
            r == Self::saturated_min_spec(),
    ;

    /// Returns the greatest value of the type.
    fn saturated_max() -> (r: Self)
        ensures
            r == Self::saturated_max_spec(),
    ;
}

/// A type with a designated "invalid value" sentinel, substituted for a
/// failed conversion by
/// [`UnwrapOrInvalid`](crate::errors::UnwrapOrInvalid).
pub trait InvalidSentinel: Copy + Sized {
    /// The sentinel value.
    spec fn invalid_sentinel_spec() -> Self;

    /// Returns the sentinel value.
    fn invalid_sentinel() -> (r: Self)
        ensures
            r == Self::invalid_sentinel_spec(),
    ;
}

/// A type with distinct positive and negative infinities, toward which an
/// overflowing conversion can saturate.
pub trait SignedInfinity: Copy + Sized {
    /// The value below every finite value.
    spec fn neg_infinity_spec() -> Self;

    /// The value above every finite value.
    spec fn pos_infinity_spec() -> Self;

    /// Returns the negative infinity of the type.
    fn neg_infinity() -> (r: Self)
        ensures
            r == Self::neg_infinity_spec(),
    ;

    /// Returns the positive infinity of the type.
    fn pos_infinity() -> (r: Self)
        ensures
            r == Self::pos_infinity_spec(),
    ;
}

impl Saturated for i8 {
    open spec fn saturated_min_spec() -> i8 {
        i8::MIN
    }

    open spec fn saturated_max_spec() -> i8 {
        i8::MAX
    }

    fn saturated_min() -> (r: i8) {
        i8::MIN
    }

    fn saturated_max() -> (r: i8) {
        i8::MAX
    }
}

impl Saturated for i16 {
    open spec fn saturated_min_spec() -> i16 {
        i16::MIN
    }

    open spec fn saturated_max_spec() -> i16 {
        i16::MAX
    }

    fn saturated_min() -> (r: i16) {
        i16::MIN
    }

    fn saturated_max() -> (r: i16) {
        i16::MAX
    }
}

impl Saturated for i32 {
    open spec fn saturated_min_spec() -> i32 {
        i32::MIN
    }

    open spec fn saturated_max_spec() -> i32 {
        i32::MAX
    }

    fn saturated_min() -> (r: i32) {
        i32::MIN
    }

    fn saturated_max() -> (r: i32) {
        i32::MAX
    }
}

impl Saturated for i64 {
    open spec fn saturated_min_spec() -> i64 {
        i64::MIN
    }

    open spec fn saturated_max_spec() -> i64 {
        i64::MAX
    }

    fn saturated_min() -> (r: i64) {
        i64::MIN
    }

    fn saturated_max() -> (r: i64) {
        i64::MAX
    }
}

impl Saturated for isize {
    open spec fn saturated_min_spec() -> isize {
        isize::MIN
    }

    open spec fn saturated_max_spec() -> isize {
        isize::MAX
    }

    fn saturated_min() -> (r: isize) {
        isize::MIN
    }

    fn saturated_max() -> (r: isize) {
        isize::MAX
    }
}

impl Saturated for u8 {
    open spec fn saturated_min_spec() -> u8 {
        0
    }

    open spec fn saturated_max_spec() -> u8 {
        u8::MAX
    }

    fn saturated_min() -> (r: u8) {
        0
    }

    fn saturated_max() -> (r: u8) {
        u8::MAX
    }
}

impl Saturated for u16 {
    open spec fn saturated_min_spec() -> u16 {
        0
    }

    open spec fn saturated_max_spec() -> u16 {
        u16::MAX
    }

    fn saturated_min() -> (r: u16) {
        0
    }

    fn saturated_max() -> (r: u16) {
        u16::MAX
    }
}

impl Saturated for u32 {
    open spec fn saturated_min_spec() -> u32 {
        0
    }

    open spec fn saturated_max_spec() -> u32 {
        u32::MAX
    }

    fn saturated_min() -> (r: u32) {
        0
    }

    fn saturated_max() -> (r: u32) {
        u32::MAX
    }
}

impl Saturated for u64 {
    open spec fn saturated_min_spec() -> u64 {
        0
    }

    open spec fn saturated_max_spec() -> u64 {
        u64::MAX
    }

    fn saturated_min() -> (r: u64) {
        0
    }

    fn saturated_max() -> (r: u64) {
        u64::MAX
    }
}

impl Saturated for usize {
    open spec fn saturated_min_spec() -> usize {
        0
    }

    open spec fn saturated_max_spec() -> usize {
        usize::MAX
    }

    fn saturated_min() -> (r: usize) {
        0
    }

    fn saturated_max() -> (r: usize) {
        usize::MAX
    }
}

} // verus!
