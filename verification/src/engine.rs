//! The conversion rule engine for integer sources: the checking strategies
//! that decide, for a source value and a destination type, whether the
//! value is representable, and which error classifies the failure when it
//! is not.
//!
//! Each strategy is written once, generically over the
//! [`PrimInt`](crate::prim::PrimInt) descriptor, and its contract pins the
//! outcome down exactly.  The order of the checks is part of the contract:
//! the lower bound is always tested before the upper bound, so an input
//! violating both (possible only with crossed bounds) reports negative
//! overflow.

use vstd::arithmetic::div_mod::{lemma_fundamental_div_mod, lemma_mod_bound};
use vstd::prelude::*;

use crate::errors::{NegOverflow, NoError, PosOverflow, RangeError};
use crate::prim::PrimInt;

verus! {

/// The verdict of a two-sided range check.
#[derive(Copy, Clone, Debug, Eq, PartialEq)]
pub enum BoundCheck {
    /// The value is below the lower bound.
    TooLow,
    /// The value is at or above the lower bound, but above the upper bound.
    TooHigh,
    /// The value lies within both bounds.
    Within,
}

/// The verdict of checking `v` against the inclusive bounds `[lo, hi]`,
/// testing the lower bound first.
pub open spec fn bound_check(v: int, lo: int, hi: int) -> BoundCheck {
    if v < lo {
        BoundCheck::TooLow
    } else if v > hi {
        BoundCheck::TooHigh
    } else {
        BoundCheck::Within
    }
}

/// Checks `v` against the inclusive bounds `[lo, hi]`, lower bound first.
pub fn check_bounds(v: i128, lo: i128, hi: i128) -> (c: BoundCheck)
    ensures
        c == bound_check(v as int, lo as int, hi as int),
{
    if v < lo {
        BoundCheck::TooLow
    } else if v > hi {
        BoundCheck::TooHigh
    } else {
        BoundCheck::Within
    }
}

/// The lower-bound check always runs first: an input below the lower bound
/// reports `TooLow` even when it is simultaneously above the upper bound,
/// which can only happen when the bounds cross.
pub proof fn lemma_lower_bound_checked_first(v: int, lo: int, hi: int)
    requires
        v < lo,
        v > hi,
    ensures
        bound_check(v, lo, hi) == BoundCheck::TooLow,
{
}

/// The outcome of a total (widening or exact) conversion: always the same
/// value, re-embedded in the destination type.
pub open spec fn exact_spec<S: PrimInt, D: PrimInt>(src: S) -> Result<D, NoError> {
    Ok(D::from_int(src.as_int()))
}

/// The outcome of a general two-sided narrowing conversion.
pub open spec fn checked_spec<S: PrimInt, D: PrimInt>(src: S) -> Result<D, RangeError<S>> {
    match bound_check(src.as_int(), D::min_int(), D::max_int()) {
        BoundCheck::TooLow => Err(RangeError::NegOverflow(src)),
        BoundCheck::TooHigh => Err(RangeError::PosOverflow(src)),
        BoundCheck::Within => Ok(D::from_int(src.as_int())),
    }
}

/// The outcome of a narrowing conversion that can only fail below the
/// destination's minimum.
pub open spec fn neg_checked_spec<S: PrimInt, D: PrimInt>(src: S) -> Result<D, NegOverflow<S>> {
    if src.as_int() < D::min_int() {
        Err(NegOverflow(src))
    } else {
        Ok(D::from_int(src.as_int()))
    }
}

/// The outcome of a narrowing conversion that can only fail above the
/// destination's maximum.
pub open spec fn pos_checked_spec<S: PrimInt, D: PrimInt>(src: S) -> Result<D, PosOverflow<S>> {
    if src.as_int() > D::max_int() {
        Err(PosOverflow(src))
    } else {
        Ok(D::from_int(src.as_int()))
    }
}

/// The unique value within `[lo, hi]` congruent to `v` modulo the range
/// size `hi - lo + 1`.
pub open spec fn wrap_int(v: int, lo: int, hi: int) -> int {
    lo + ((v - lo) % (hi - lo + 1))
}

/// The outcome of a wrapping conversion: never an error, the value reduced
/// into the destination's range.
pub open spec fn wrapping_spec<S: PrimInt, D: PrimInt>(src: S) -> Result<D, NoError> {
    Ok(D::from_int(wrap_int(src.as_int(), D::min_int(), D::max_int())))
}

/// Total conversion: the destination's range is a superset of the
/// source's, so the value is re-embedded unchanged and no error can occur.
pub fn convert_exact<S: PrimInt, D: PrimInt>(src: S) -> (r: Result<D, NoError>)
    requires
        D::min_int() <= S::min_int(),
        S::max_int() <= D::max_int(),
    ensures
        r == exact_spec::<S, D>(src),
        r is Ok,
        r->Ok_0.as_int() == src.as_int(),
{
    proof {
        src.lemma_in_range();
        D::lemma_from_as(src.as_int());
    }
    let w = src.to_wide();
    Ok(D::of_wide(w))
}

/// General two-sided narrowing: the input is checked against the
/// destination's minimum first, then its maximum, and the corresponding
/// overflow error carries the rejected input.
pub fn convert_checked<S: PrimInt, D: PrimInt>(src: S) -> (r: Result<D, RangeError<S>>)
    ensures
        r == checked_spec::<S, D>(src),
{
    proof {
        src.lemma_in_range();
        S::lemma_bounds();
        D::lemma_bounds();
    }
    let w = src.to_wide();
    match check_bounds(w, D::min_wide(), D::max_wide()) {
        BoundCheck::TooLow => Err(RangeError::NegOverflow(src)),
        BoundCheck::TooHigh => Err(RangeError::PosOverflow(src)),
        BoundCheck::Within => Ok(D::of_wide(w)),
    }
}

/// Narrowing where only the lower bound can be violated, because the
/// destination's maximum is at or above the source's.
pub fn convert_neg_checked<S: PrimInt, D: PrimInt>(src: S) -> (r: Result<D, NegOverflow<S>>)
    requires
        S::max_int() <= D::max_int(),
    ensures
        r == neg_checked_spec::<S, D>(src),
{
    proof {
        src.lemma_in_range();
    }
    let w = src.to_wide();
    if w < D::min_wide() {
        Err(NegOverflow(src))
    } else {
        Ok(D::of_wide(w))
    }
}

/// Narrowing where only the upper bound can be violated, because the
/// destination's minimum is at or below the source's.
pub fn convert_pos_checked<S: PrimInt, D: PrimInt>(src: S) -> (r: Result<D, PosOverflow<S>>)
    requires
        D::min_int() <= S::min_int(),
    ensures
        r == pos_checked_spec::<S, D>(src),
{
    proof {
        src.lemma_in_range();
    }
    let w = src.to_wide();
    if w > D::max_wide() {
        Err(PosOverflow(src))
    } else {
        Ok(D::of_wide(w))
    }
}

/// The wrapped value always lands within the destination's bounds.
pub proof fn lemma_wrap_int_range(v: int, lo: int, hi: int)
    requires
        lo < hi,
    ensures
        lo <= wrap_int(v, lo, hi) <= hi,
{
    lemma_mod_bound(v - lo, hi - lo + 1);
}

/// Wrapping is modular: the wrapped value differs from the input by a
/// multiple of the range size (`2^width` for a primitive integer type).
pub proof fn lemma_wrap_int_modular(v: int, lo: int, hi: int)
    requires
        lo < hi,
    ensures
        (wrap_int(v, lo, hi) - v) % (hi - lo + 1) == 0,
{
    let size = hi - lo + 1;
    lemma_fundamental_div_mod(v - lo, size);
    let q = (v - lo) / size;
    assert(wrap_int(v, lo, hi) - v == (-q) * size) by {
        assert(v - lo == q * size + (v - lo) % size);
        assert((-q) * size == -(q * size)) by (nonlinear_arith);
    }
    lemma_mul_mod_zero(-q, size);
}

/// A value already within `[lo, hi]` wraps to itself.
pub proof fn lemma_wrap_int_identity(v: int, lo: int, hi: int)
    requires
        lo <= v <= hi,
    ensures
        wrap_int(v, lo, hi) == v,
{
    lemma_small_mod((v - lo) as nat, (hi - lo + 1) as nat);
}

proof fn lemma_mul_mod_zero(a: int, m: int)
    requires
        m > 0,
    ensures
        (a * m) % m == 0,
{
    vstd::arithmetic::div_mod::lemma_mod_multiples_basic(a, m);
}

proof fn lemma_small_mod(x: nat, m: nat)
    requires
        x < m,
    ensures
        x as int % m as int == x as int,
{
    vstd::arithmetic::div_mod::lemma_small_mod(x, m);
}

/// Wrapping conversion: total, independent of any bound check, the value
/// reduced modulo the destination's range size.
pub fn convert_wrapping<S: PrimInt, D: PrimInt>(src: S) -> (r: Result<D, NoError>)
    ensures
        r == wrapping_spec::<S, D>(src),
        r is Ok,
{
    proof {
        src.lemma_in_range();
        S::lemma_bounds();
        D::lemma_bounds();
    }
    let w = src.to_wide();
    let lo = D::min_wide();
    let hi = D::max_wide();
    let size = hi - lo + 1;
    let off = match (w - lo).checked_rem_euclid(size) {
        Some(m) => m,
        None => vstd::pervasive::unreached(),
    };
    proof {
        lemma_mod_bound(w - lo, size as int);
    }
    Ok(D::of_wide(lo + off))
}

} // verus!
