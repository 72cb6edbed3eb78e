//! The conversion rule engine for floating-point sources: the checking
//! strategies that take a floating-point value to an integer type.
//!
//! Every strategy tests not-a-number first, unconditionally; an input that
//! is simultaneously not-a-number and out of range always reports
//! not-a-number.  An infinity participates in the range checks normally and
//! fails them in its own direction.  After the not-a-number test:
//!
//! - the rounding strategy applies the scheme's rounding and checks the
//!   *rounded* value against inclusive integer bounds;
//! - the truncating strategies check the *raw* value against the bounds —
//!   inclusive literal round-trip bounds for the wide destinations, or the
//!   destination's own bounds widened by one (exclusive) for the narrow
//!   ones, where truncation pulls any accepted value back into range —
//!   and then truncate toward zero.

use vstd::arithmetic::power2::pow2;
use vstd::prelude::*;

use crate::errors::FloatError;
use crate::fp::PrimFloat;
use crate::fround::{
    lemma_ceil_above, lemma_floor_below, lemma_floor_trunc_ceil, lemma_pow2_127, round_scaled,
    spec_round, RoundMode, Rounded,
};
use crate::prim::PrimInt;

verus! {

/// The outcome of a float-to-integer conversion with an explicit rounding
/// step: not-a-number is rejected first, then the rounded value is checked
/// against the inclusive bounds `[lo, hi]`, lower bound first.
pub open spec fn round_checked_spec<F: PrimFloat, D: PrimInt>(
    src: F,
    mode: RoundMode,
    lo: int,
    hi: int,
) -> Result<D, FloatError<F>> {
    if src.is_nan() {
        Err(FloatError::NotANumber(src))
    } else {
        let rv = spec_round(mode, src.scaled(), pow2(F::scale_log()) as int);
        if rv < lo {
            Err(FloatError::NegOverflow(src))
        } else if rv > hi {
            Err(FloatError::PosOverflow(src))
        } else {
            Ok(D::from_int(rv))
        }
    }
}

/// The outcome of a truncating float-to-integer conversion over the
/// inclusive raw-value bounds `[lo, hi]`: not-a-number is rejected first,
/// then the raw value is checked, lower bound first, and an accepted value
/// is truncated toward zero.
pub open spec fn trunc_incl_spec<F: PrimFloat, D: PrimInt>(src: F, lo: int, hi: int) -> Result<
    D,
    FloatError<F>,
> {
    if src.is_nan() {
        Err(FloatError::NotANumber(src))
    } else if src.scaled() < lo * pow2(F::scale_log()) {
        Err(FloatError::NegOverflow(src))
    } else if src.scaled() > hi * pow2(F::scale_log()) {
        Err(FloatError::PosOverflow(src))
    } else {
        Ok(D::from_int(spec_round(RoundMode::Trunc, src.scaled(), pow2(F::scale_log()) as int)))
    }
}

/// The outcome of a truncating float-to-integer conversion over the
/// exclusive raw-value bounds `(lo, hi)`, where `lo` and `hi` lie one
/// beyond the destination's own bounds: a value within `1.0` of the
/// destination's range is accepted, because truncation pulls it back in.
pub open spec fn trunc_excl_spec<F: PrimFloat, D: PrimInt>(src: F, lo: int, hi: int) -> Result<
    D,
    FloatError<F>,
> {
    if src.is_nan() {
        Err(FloatError::NotANumber(src))
    } else if src.scaled() <= lo * pow2(F::scale_log()) {
        Err(FloatError::NegOverflow(src))
    } else if src.scaled() >= hi * pow2(F::scale_log()) {
        Err(FloatError::PosOverflow(src))
    } else {
        Ok(D::from_int(spec_round(RoundMode::Trunc, src.scaled(), pow2(F::scale_log()) as int)))
    }
}

/// Float to integer with an explicit rounding step, checking the rounded
/// value against the inclusive bounds `[lo, hi]`.
pub fn convert_round_checked<F: PrimFloat, D: PrimInt>(
    src: F,
    mode: RoundMode,
    lo: i128,
    hi: i128,
) -> (r: Result<D, FloatError<F>>)
    requires
        D::min_int() <= lo as int,
        hi as int <= D::max_int(),
    ensures
        r == round_checked_spec::<F, D>(src, mode, lo as int, hi as int),
{
    proof {
        D::lemma_bounds();
        F::lemma_scale();
        lemma_pow2_127();
    }
    if src.nan_check() {
        return Err(FloatError::NotANumber(src));
    }
    let (neg, m, t) = src.decode();
    let s = F::scale_log_ex();
    match round_scaled(neg, m, t, s, mode) {
        Rounded::Val(v) => {
            if v < lo {
                Err(FloatError::NegOverflow(src))
            } else if v > hi {
                Err(FloatError::PosOverflow(src))
            } else {
                Ok(D::of_wide(v))
            }
        },
        Rounded::HugeNeg => Err(FloatError::NegOverflow(src)),
        Rounded::HugePos => Err(FloatError::PosOverflow(src)),
    }
}

/// Truncating float to integer over the inclusive raw-value bounds
/// `[lo, hi]`.
pub fn convert_trunc_incl<F: PrimFloat, D: PrimInt>(src: F, lo: i128, hi: i128) -> (r: Result<
    D,
    FloatError<F>,
>)
    requires
        D::min_int() <= lo as int,
        hi as int <= D::max_int(),
        lo as int <= 0,
        0 <= hi as int,
    ensures
        r == trunc_incl_spec::<F, D>(src, lo as int, hi as int),
{
    proof {
        D::lemma_bounds();
        F::lemma_scale();
        lemma_pow2_127();
        vstd::arithmetic::power2::lemma_pow2_pos(F::scale_log());
    }
    if src.nan_check() {
        return Err(FloatError::NotANumber(src));
    }
    let (neg, m, t) = src.decode();
    let s = F::scale_log_ex();
    let ghost u = pow2(F::scale_log()) as int;
    let ghost scaled = src.scaled();
    proof {
        lemma_floor_below(scaled, u, lo as int);
        lemma_ceil_above(scaled, u, hi as int);
        lemma_floor_trunc_ceil(scaled, u);
    }
    let below = match round_scaled(neg, m, t, s, RoundMode::Floor) {
        Rounded::Val(v) => v < lo,
        Rounded::HugeNeg => true,
        Rounded::HugePos => false,
    };
    if below {
        return Err(FloatError::NegOverflow(src));
    }
    let above = match round_scaled(neg, m, t, s, RoundMode::Ceil) {
        Rounded::Val(v) => v > hi,
        Rounded::HugeNeg => false,
        Rounded::HugePos => true,
    };
    if above {
        return Err(FloatError::PosOverflow(src));
    }
    match round_scaled(neg, m, t, s, RoundMode::Trunc) {
        Rounded::Val(v) => Ok(D::of_wide(v)),
        _ => vstd::pervasive::unreached(),
    }
}

/// Truncating float to integer over the exclusive raw-value bounds
/// `(lo, hi)`, with `lo` and `hi` one beyond the destination's bounds.
pub fn convert_trunc_excl<F: PrimFloat, D: PrimInt>(src: F, lo: i128, hi: i128) -> (r: Result<
    D,
    FloatError<F>,
>)
    requires
        lo as int == D::min_int() - 1,
        hi as int == D::max_int() + 1,
    ensures
        r == trunc_excl_spec::<F, D>(src, lo as int, hi as int),
{
    proof {
        D::lemma_bounds();
        F::lemma_scale();
        lemma_pow2_127();
        vstd::arithmetic::power2::lemma_pow2_pos(F::scale_log());
    }
    if src.nan_check() {
        return Err(FloatError::NotANumber(src));
    }
    let (neg, m, t) = src.decode();
    let s = F::scale_log_ex();
    let ghost u = pow2(F::scale_log()) as int;
    let ghost scaled = src.scaled();
    proof {
        lemma_ceil_above(scaled, u, lo as int);
        lemma_floor_below(scaled, u, hi as int);
        lemma_floor_trunc_ceil(scaled, u);
    }
    // value <= lo, for an integer lo, is exactly: ceil(value) <= lo.
    let at_or_below = match round_scaled(neg, m, t, s, RoundMode::Ceil) {
        Rounded::Val(v) => v <= lo,
        Rounded::HugeNeg => true,
        Rounded::HugePos => false,
    };
    if at_or_below {
        return Err(FloatError::NegOverflow(src));
    }
    // value >= hi, for an integer hi, is exactly: floor(value) >= hi.
    let at_or_above = match round_scaled(neg, m, t, s, RoundMode::Floor) {
        Rounded::Val(v) => v >= hi,
        Rounded::HugeNeg => false,
        Rounded::HugePos => true,
    };
    if at_or_above {
        return Err(FloatError::PosOverflow(src));
    }
    match round_scaled(neg, m, t, s, RoundMode::Trunc) {
        Rounded::Val(v) => Ok(D::of_wide(v)),
        _ => vstd::pervasive::unreached(),
    }
}

} // verus!
