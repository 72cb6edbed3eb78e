//! The primitive type descriptor: the interface through which the rule
//! engine sees an integer type.
//!
//! Each supported integer width exposes its numeric value and its bounds as
//! mathematical integers, so that every checking strategy can be written
//! (and verified) once, generically, instead of once per pair of concrete
//! types.

use vstd::prelude::*;

verus! {

/// A primitive integer type, described by its embedding into the
/// mathematical integers.
///
/// All ten supported integer types (8- to 64-bit and the pointer-sized
/// pair) fit within `i128`, which the engine uses as the common working
/// width.
pub trait PrimInt: Copy + Sized {
    /// The numeric value of `self` as a mathematical integer.
    spec fn as_int(self) -> int;

    /// The least value of the type.
    spec fn min_int() -> int;

    /// The greatest value of the type.
    spec fn max_int() -> int;

    /// The value of the type whose numeric value is `v`, for `v` within
    /// bounds.
    spec fn from_int(v: int) -> Self;

    /// Every value lies within the type's bounds.
    proof fn lemma_in_range(self)
        ensures
            Self::min_int() <= self.as_int() <= Self::max_int(),
    ;

    /// `from_int` inverts `as_int` on the type's range.
    proof fn lemma_from_as(v: int)
        requires
            Self::min_int() <= v <= Self::max_int(),
        ensures
            Self::from_int(v).as_int() == v,
    ;

    /// Two values with the same numeric value are the same value.
    proof fn lemma_as_injective(self, other: Self)
        requires
            self.as_int() == other.as_int(),
        ensures
            self == other,
    ;

    /// The bounds of every supported type fit comfortably inside `i128`:
    /// no minimum is below `i64::MIN` and no maximum is above `u64::MAX`.
    proof fn lemma_bounds()
        ensures
            i64::MIN as int <= Self::min_int(),
            Self::min_int() <= 0,
            0 <= Self::max_int(),
            Self::max_int() <= u64::MAX as int,
            Self::min_int() < Self::max_int(),
    ;

    /// The numeric value of `self`, widened to `i128`.
    fn to_wide(self) -> (w: i128)
        ensures
            w == self.as_int(),
    ;

    /// The value with numeric value `w`, for `w` within bounds.
    fn of_wide(w: i128) -> (r: Self)
        requires
            Self::min_int() <= w as int <= Self::max_int(),
        ensures
            r == Self::from_int(w as int),
            r.as_int() == w as int,
    ;

    /// The least value of the type, as an `i128`.
    fn min_wide() -> (w: i128)
        ensures
            w == Self::min_int(),
    ;

    /// The greatest value of the type, as an `i128`.
    fn max_wide() -> (w: i128)
        ensures
            w == Self::max_int(),
    ;
}

impl PrimInt for i8 {
    open spec fn as_int(self) -> int {
        self as int
    }

    open spec fn min_int() -> int {
        i8::MIN as int
    }

    open spec fn max_int() -> int {
        i8::MAX as int
    }

    open spec fn from_int(v: int) -> i8 {
        v as i8
    }

    proof fn lemma_in_range(self) {
    }

    proof fn lemma_from_as(v: int) {
    }

    proof fn lemma_as_injective(self, other: Self) {
    }

    proof fn lemma_bounds() {
    }

    fn to_wide(self) -> (w: i128) {
        self as i128
    }

    fn of_wide(w: i128) -> (r: i8) {
        w as i8
    }

    fn min_wide() -> (w: i128) {
        i8::MIN as i128
    }

    fn max_wide() -> (w: i128) {
        i8::MAX as i128
    }
}

impl PrimInt for i16 {
    open spec fn as_int(self) -> int {
        self as int
    }

    open spec fn min_int() -> int {
        i16::MIN as int
    }

    open spec fn max_int() -> int {
        i16::MAX as int
    }

    open spec fn from_int(v: int) -> i16 {
        v as i16
    }

    proof fn lemma_in_range(self) {
    }

    proof fn lemma_from_as(v: int) {
    }

    proof fn lemma_as_injective(self, other: Self) {
    }

    proof fn lemma_bounds() {
    }

    fn to_wide(self) -> (w: i128) {
        self as i128
    }

    fn of_wide(w: i128) -> (r: i16) {
        w as i16
    }

    fn min_wide() -> (w: i128) {
        i16::MIN as i128
    }

    fn max_wide() -> (w: i128) {
        i16::MAX as i128
    }
}

impl PrimInt for i32 {
    open spec fn as_int(self) -> int {
        self as int
    }

    open spec fn min_int() -> int {
        i32::MIN as int
    }

    open spec fn max_int() -> int {
        i32::MAX as int
    }

    open spec fn from_int(v: int) -> i32 {
        v as i32
    }

    proof fn lemma_in_range(self) {
    }

    proof fn lemma_from_as(v: int) {
    }

    proof fn lemma_as_injective(self, other: Self) {
    }

    proof fn lemma_bounds() {
    }

    fn to_wide(self) -> (w: i128) {
        self as i128
    }

    fn of_wide(w: i128) -> (r: i32) {
        w as i32
    }

    fn min_wide() -> (w: i128) {
        i32::MIN as i128
    }

    fn max_wide() -> (w: i128) {
        i32::MAX as i128
    }
}

impl PrimInt for i64 {
    open spec fn as_int(self) -> int {
        self as int
    }

    open spec fn min_int() -> int {
        i64::MIN as int
    }

    open spec fn max_int() -> int {
        i64::MAX as int
    }

    open spec fn from_int(v: int) -> i64 {
        v as i64
    }

    proof fn lemma_in_range(self) {
    }

    proof fn lemma_from_as(v: int) {
    }

    proof fn lemma_as_injective(self, other: Self) {
    }

    proof fn lemma_bounds() {
    }

    fn to_wide(self) -> (w: i128) {
        self as i128
    }

    fn of_wide(w: i128) -> (r: i64) {
        w as i64
    }

    fn min_wide() -> (w: i128) {
        i64::MIN as i128
    }

    fn max_wide() -> (w: i128) {
        i64::MAX as i128
    }
}

impl PrimInt for isize {
    open spec fn as_int(self) -> int {
        self as int
    }

    open spec fn min_int() -> int {
        isize::MIN as int
    }

    open spec fn max_int() -> int {
        isize::MAX as int
    }

    open spec fn from_int(v: int) -> isize {
        v as isize
    }

    proof fn lemma_in_range(self) {
    }

    proof fn lemma_from_as(v: int) {
    }

    proof fn lemma_as_injective(self, other: Self) {
    }

    proof fn lemma_bounds() {
    }

    fn to_wide(self) -> (w: i128) {
        self as i128
    }

    fn of_wide(w: i128) -> (r: isize) {
        w as isize
    }

    fn min_wide() -> (w: i128) {
        isize::MIN as i128
    }

    fn max_wide() -> (w: i128) {
        isize::MAX as i128
    }
}

impl PrimInt for u8 {
    open spec fn as_int(self) -> int {
        self as int
    }

    open spec fn min_int() -> int {
        0
    }

    open spec fn max_int() -> int {
        u8::MAX as int
    }

    open spec fn from_int(v: int) -> u8 {
        v as u8
    }

    proof fn lemma_in_range(self) {
    }

    proof fn lemma_from_as(v: int) {
    }

    proof fn lemma_as_injective(self, other: Self) {
    }

    proof fn lemma_bounds() {
    }

    fn to_wide(self) -> (w: i128) {
        self as i128
    }

    fn of_wide(w: i128) -> (r: u8) {
        w as u8
    }

    fn min_wide() -> (w: i128) {
        0
    }

    fn max_wide() -> (w: i128) {
        u8::MAX as i128
    }
}

impl PrimInt for u16 {
    open spec fn as_int(self) -> int {
        self as int
    }

    open spec fn min_int() -> int {
        0
    }

    open spec fn max_int() -> int {
        u16::MAX as int
    }

    open spec fn from_int(v: int) -> u16 {
        v as u16
    }

    proof fn lemma_in_range(self) {
    }

    proof fn lemma_from_as(v: int) {
    }

    proof fn lemma_as_injective(self, other: Self) {
    }

    proof fn lemma_bounds() {
    }

    fn to_wide(self) -> (w: i128) {
        self as i128
    }

    fn of_wide(w: i128) -> (r: u16) {
        w as u16
    }

    fn min_wide() -> (w: i128) {
        0
    }

    fn max_wide() -> (w: i128) {
        u16::MAX as i128
    }
}

impl PrimInt for u32 {
    open spec fn as_int(self) -> int {
        self as int
    }

    open spec fn min_int() -> int {
        0
    }

    open spec fn max_int() -> int {
        u32::MAX as int
    }

    open spec fn from_int(v: int) -> u32 {
        v as u32
    }

    proof fn lemma_in_range(self) {
    }

    proof fn lemma_from_as(v: int) {
    }

    proof fn lemma_as_injective(self, other: Self) {
    }

    proof fn lemma_bounds() {
    }

    fn to_wide(self) -> (w: i128) {
        self as i128
    }

    fn of_wide(w: i128) -> (r: u32) {
        w as u32
    }

    fn min_wide() -> (w: i128) {
        0
    }

    fn max_wide() -> (w: i128) {
        u32::MAX as i128
    }
}

impl PrimInt for u64 {
    open spec fn as_int(self) -> int {
        self as int
    }

    open spec fn min_int() -> int {
        0
    }

    open spec fn max_int() -> int {
        u64::MAX as int
    }

    open spec fn from_int(v: int) -> u64 {
        v as u64
    }

    proof fn lemma_in_range(self) {
    }

    proof fn lemma_from_as(v: int) {
    }

    proof fn lemma_as_injective(self, other: Self) {
    }

    proof fn lemma_bounds() {
    }

    fn to_wide(self) -> (w: i128) {
        self as i128
    }

    fn of_wide(w: i128) -> (r: u64) {
        w as u64
    }

    fn min_wide() -> (w: i128) {
        0
    }

    fn max_wide() -> (w: i128) {
        u64::MAX as i128
    }
}

impl PrimInt for usize {
    open spec fn as_int(self) -> int {
        self as int
    }

    open spec fn min_int() -> int {
        0
    }

    open spec fn max_int() -> int {
        usize::MAX as int
    }

    open spec fn from_int(v: int) -> usize {
        v as usize
    }

    proof fn lemma_in_range(self) {
    }

    proof fn lemma_from_as(v: int) {
    }

    proof fn lemma_as_injective(self, other: Self) {
    }

    proof fn lemma_bounds() {
    }

    fn to_wide(self) -> (w: i128) {
        self as i128
    }

    fn of_wide(w: i128) -> (r: usize) {
        w as usize
    }

    fn min_wide() -> (w: i128) {
        0
    }

    fn max_wide() -> (w: i128) {
        usize::MAX as i128
    }
}

} // verus!
