//! The laws of the conversion engine: properties that relate several
//! rules, stated and proved once, generically.

use vstd::arithmetic::power2::pow2;
use vstd::prelude::*;

use crate::engine::{checked_spec, exact_spec, wrap_int, wrapping_spec};
use crate::fp::Fp32;
use crate::limits::MAX_F32_I32;
use crate::errors::{FloatError, NoError, RangeError, Saturate, Unrepresentable};
use crate::fp::PrimFloat;
use crate::fp_to_int::{round_checked_spec, trunc_excl_spec, trunc_incl_spec};
use crate::fround::RoundMode;
use crate::misc::Saturated;
use crate::prim::PrimInt;

verus! {

/// Round-trip totality: wherever the destination's range contains the
/// source's, the exact conversion succeeds on every value, and converting
/// the result back (by the general checked rule) recovers the original
/// value exactly.
pub proof fn lemma_widening_round_trip<S: PrimInt, D: PrimInt>(src: S)
    requires
        D::min_int() <= S::min_int(),
        S::max_int() <= D::max_int(),
    ensures
        exact_spec::<S, D>(src) is Ok,
        exact_spec::<S, D>(src)->Ok_0.as_int() == src.as_int(),
        checked_spec::<D, S>(exact_spec::<S, D>(src)->Ok_0) == Ok::<S, RangeError<D>>(src),
{
    src.lemma_in_range();
    D::lemma_from_as(src.as_int());
    let w = exact_spec::<S, D>(src)->Ok_0;
    S::lemma_from_as(w.as_int());
    S::from_int(w.as_int()).lemma_as_injective(src);
}

/// Not-a-number precedence: a not-a-number input reports
/// [`FloatError::NotANumber`] under every scheme and against every pair of
/// bounds — never an overflow — whatever any rounding step would do.
pub proof fn lemma_nan_precedence<F: PrimFloat, D: PrimInt>(
    src: F,
    mode: RoundMode,
    lo: int,
    hi: int,
)
    requires
        src.is_nan(),
    ensures
        round_checked_spec::<F, D>(src, mode, lo, hi) == Err::<D, FloatError<F>>(
            FloatError::NotANumber(src),
        ),
        trunc_incl_spec::<F, D>(src, lo, hi) == Err::<D, FloatError<F>>(
            FloatError::NotANumber(src),
        ),
        trunc_excl_spec::<F, D>(src, lo, hi) == Err::<D, FloatError<F>>(
            FloatError::NotANumber(src),
        ),
{
}

/// Wrapping is total and modular: it never fails, its result lies in the
/// destination's range, and it differs from the input by a multiple of the
/// destination's range size (`2^width` for a primitive integer type) —
/// which pins down the result, sign reinterpretation included, as the
/// input's residue.
pub proof fn lemma_wrapping_total_modular<S: PrimInt, D: PrimInt>(src: S)
    ensures
        wrapping_spec::<S, D>(src) is Ok,
        D::min_int() <= wrapping_spec::<S, D>(src)->Ok_0.as_int() <= D::max_int(),
        (wrapping_spec::<S, D>(src)->Ok_0.as_int() - src.as_int()) % (D::max_int() - D::min_int()
            + 1) == 0,
{
    D::lemma_bounds();
    let v = src.as_int();
    let lo = D::min_int();
    let hi = D::max_int();
    crate::engine::lemma_wrap_int_range(v, lo, hi);
    crate::engine::lemma_wrap_int_modular(v, lo, hi);
    D::lemma_from_as(wrap_int(v, lo, hi));
}

/// A value already within the destination's range wraps to itself, so
/// wrapping agrees with the exact conversion on every shared input.
pub proof fn lemma_wrapping_extends_exact<S: PrimInt, D: PrimInt>(src: S)
    requires
        D::min_int() <= src.as_int() <= D::max_int(),
    ensures
        wrapping_spec::<S, D>(src) == exact_spec::<S, D>(src),
{
    crate::engine::lemma_wrap_int_identity(src.as_int(), D::min_int(), D::max_int());
    D::lemma_bounds();
}

/// Saturation fixpoint, integer sources: saturating the checked conversion
/// of a bound-violating input gives exactly the destination's minimum or
/// maximum; an in-range input passes through untouched.
pub proof fn lemma_saturate_checked_fixpoint<S: PrimInt, D: PrimInt + Saturated>(src: S)
    requires
        D::saturated_min_spec() == D::from_int(D::min_int()),
        D::saturated_max_spec() == D::from_int(D::max_int()),
    ensures
        src.as_int() < D::min_int() ==> checked_spec::<S, D>(src).saturate_spec() == Ok::<
            D,
            NoError,
        >(D::from_int(D::min_int())),
        src.as_int() > D::max_int() ==> checked_spec::<S, D>(src).saturate_spec() == Ok::<
            D,
            NoError,
        >(D::from_int(D::max_int())),
        D::min_int() <= src.as_int() <= D::max_int() ==> checked_spec::<S, D>(
            src,
        ).saturate_spec() == Ok::<D, NoError>(D::from_int(src.as_int())),
{
    D::lemma_bounds();
}

/// Saturation fixpoint, floating-point sources: under the truncating rule
/// with inclusive bounds, saturating a bound-violating input gives exactly
/// the destination's minimum or maximum.
pub proof fn lemma_saturate_float_fixpoint<F: PrimFloat, D: PrimInt + Saturated>(
    src: F,
    lo: int,
    hi: int,
)
    requires
        !src.is_nan(),
        D::saturated_min_spec() == D::from_int(D::min_int()),
        D::saturated_max_spec() == D::from_int(D::max_int()),
    ensures
        src.scaled() < lo * pow2(F::scale_log()) ==> trunc_incl_spec::<F, D>(
            src,
            lo,
            hi,
        ).saturate_spec() == Ok::<D, Unrepresentable<F>>(D::from_int(D::min_int())),
        src.scaled() >= lo * pow2(F::scale_log()) && src.scaled() > hi * pow2(F::scale_log())
            ==> trunc_incl_spec::<F, D>(src, lo, hi).saturate_spec() == Ok::<
            D,
            Unrepresentable<F>,
        >(D::from_int(D::max_int())),
{
}

/// Saturation never resolves not-a-number: it stays behind as a residual
/// error carrying the input, and no bound value is fabricated for it.
pub proof fn lemma_saturate_nan_residual<F: PrimFloat, D: PrimInt + Saturated>(
    src: F,
    mode: RoundMode,
    lo: int,
    hi: int,
)
    requires
        src.is_nan(),
    ensures
        round_checked_spec::<F, D>(src, mode, lo, hi).saturate_spec() == Err::<
            D,
            Unrepresentable<F>,
        >(Unrepresentable(src)),
        trunc_incl_spec::<F, D>(src, lo, hi).saturate_spec() == Err::<D, Unrepresentable<F>>(
            Unrepresentable(src),
        ),
        trunc_excl_spec::<F, D>(src, lo, hi).saturate_spec() == Err::<D, Unrepresentable<F>>(
            Unrepresentable(src),
        ),
{
}


/// Boundary exactness at the single-precision, 32-bit-integer pair: the
/// stored boundary constant is the very edge of safety.  Its bit pattern
/// converts successfully to exactly the constant, and the next
/// representable single-precision value in the same direction is rejected
/// with a positive overflow.
pub proof fn lemma_boundary_exact_f32_i32()
    ensures
        trunc_incl_spec::<Fp32, i32>(
            (Fp32 { bits: 0x4eff_ffff }),
            i32::MIN as int,
            MAX_F32_I32 as int,
        ) == Ok::<i32, FloatError<Fp32>>(MAX_F32_I32),
        trunc_incl_spec::<Fp32, i32>(
            (Fp32 { bits: 0x4f00_0000 }),
            i32::MIN as int,
            MAX_F32_I32 as int,
        ) == Err::<i32, FloatError<Fp32>>(FloatError::PosOverflow((Fp32 { bits: 0x4f00_0000 }))),
{
    let u = pow2(149) as int;
    vstd::arithmetic::power2::lemma2_to64();
    vstd::arithmetic::power2::lemma_pow2_pos(149);
    vstd::arithmetic::power2::lemma_pow2_pos(156);
    assert(pow2(156) == pow2(7) * pow2(149)) by {
        vstd::arithmetic::power2::lemma_pow2_adds(7, 149);
    }
    assert(pow2(157) == pow2(8) * pow2(149)) by {
        vstd::arithmetic::power2::lemma_pow2_adds(8, 149);
    }
    // The boundary constant: sign 0, exponent field 157, fraction all
    // ones, so the magnitude is 0xff_ffff * 2^156 = 2147483520 * 2^149.
    let at = Fp32 { bits: 0x4eff_ffffu32 };
    assert(0x4eff_ffffu32 >> 31 == 0 && (0x4eff_ffffu32 >> 23) & 0xff == 157
        && 0x4eff_ffffu32 & 0x7f_ffff == 0x7f_ffff) by (bit_vector);
    assert(at.mag_scaled() == 0xff_ffff * pow2(156));
    assert(at.scaled_spec() == MAX_F32_I32 * u) by (nonlinear_arith)
        requires
            at.scaled_spec() == 0xff_ffff * pow2(156),
            pow2(156) == pow2(7) * pow2(149),
            pow2(7) == 0x80,
            u == pow2(149),
            MAX_F32_I32 == 2147483520,
    ;
    assert(i32::MIN as int * u < 0) by (nonlinear_arith)
        requires
            u > 0,
    ;
    assert(crate::fround::spec_round(crate::fround::RoundMode::Trunc, at.scaled_spec(), u)
        == MAX_F32_I32 as int) by {
        vstd::arithmetic::div_mod::lemma_div_multiples_vanish(MAX_F32_I32 as int, u);
        assert(u * (MAX_F32_I32 as int) == at.scaled_spec()) by (nonlinear_arith)
            requires
                at.scaled_spec() == MAX_F32_I32 * u,
        ;
    }
    // One step further: sign 0, exponent field 158, fraction zero, a
    // magnitude of 2^23 * 2^157 = 2^180, strictly beyond the boundary.
    let beyond = Fp32 { bits: 0x4f00_0000u32 };
    assert(0x4f00_0000u32 >> 31 == 0 && (0x4f00_0000u32 >> 23) & 0xff == 158
        && 0x4f00_0000u32 & 0x7f_ffff == 0) by (bit_vector);
    assert(beyond.mag_scaled() == 0x80_0000 * pow2(157));
    assert(beyond.scaled_spec() > MAX_F32_I32 * u) by (nonlinear_arith)
        requires
            beyond.scaled_spec() == 0x80_0000 * pow2(157),
            pow2(157) == pow2(8) * pow2(149),
            pow2(8) == 0x100,
            u == pow2(149),
            u > 0,
            MAX_F32_I32 == 2147483520,
    ;
}

} // verus!

