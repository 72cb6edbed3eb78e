//! The conversion rule engine for integer sources with a floating-point
//! destination.
//!
//! Within the range where the destination format represents every integer
//! exactly (up to `2^24` in magnitude for single precision, `2^53` for
//! double), the conversion is exact: the encoder below builds the unique
//! normal-form bit pattern with precisely the source's value, and that is
//! proved.  Outside that range the conversion is not offered as exact:
//! the bounded strategies reject the input with the matching overflow
//! error instead of silently rounding.

use vstd::arithmetic::power2::{
    lemma2_to64, lemma2_to64_rest, lemma_pow2_adds, lemma_pow2_pos, lemma_pow2_strictly_increases,
    lemma_pow2_unfold, pow2,
};
use vstd::prelude::*;

use crate::errors::{NegOverflow, NoError, PosOverflow, RangeError};
use crate::fp::{Fp32, Fp64};
use crate::prim::PrimInt;

verus! {

/// Doubles `m`, lowering `e` in step, until `m` reaches `threshold`: the
/// normalization step of encoding an integer as a floating-point value.
pub open spec fn norm_up(m: nat, e: int, threshold: nat) -> (nat, int)
    decreases (if m < threshold {
        (threshold - m) as nat
    } else {
        0nat
    }) when m >= 1
{
    if m >= threshold {
        (m, e)
    } else {
        norm_up(2 * m, e - 1, threshold)
    }
}

/// Normalization preserves the value `m * 2^e` (tracked as
/// `m2 == m * 2^(e - e2)`), lands in `[threshold, 2 * threshold)`, and
/// lowers the exponent by at most the threshold's width.
pub proof fn lemma_norm_up(m: nat, e: int, threshold: nat, width: nat)
    requires
        1 <= m < 2 * threshold,
        threshold == pow2(width),
    ensures
        ({
            let (m2, e2) = norm_up(m, e, threshold);
            &&& threshold <= m2 < 2 * threshold
            &&& e2 <= e
            &&& e - e2 <= width
            &&& m2 == m * pow2((e - e2) as nat)
        }),
    decreases (if m < threshold {
        (threshold - m) as nat
    } else {
        0nat
    }),
{
    lemma_pow2_pos(width);
    if m >= threshold {
        lemma2_to64();
        assert(m * pow2(0) == m);
    } else {
        lemma_norm_up(2 * m, e - 1, threshold, width);
        let (m2, e2) = norm_up(2 * m, e - 1, threshold);
        lemma_pow2_unfold((e - e2) as nat);
        assert((2 * m) * pow2((e - 1 - e2) as nat) == m * pow2((e - e2) as nat))
            by (nonlinear_arith)
            requires
                pow2((e - e2) as nat) == 2 * pow2((e - 1 - e2) as nat),
        ;
        if e - e2 > width {
            // Then m * 2^(e - e2) >= 1 * 2^(width + 1) = 2 * threshold,
            // contradicting m2 < 2 * threshold.
            if e - e2 - 1 > width {
                lemma_pow2_strictly_increases(width, (e - e2 - 1) as nat);
            }
            lemma_pow2_unfold((e - e2) as nat);
            assert(m * pow2((e - e2) as nat) >= 2 * threshold) by (nonlinear_arith)
                requires
                    m >= 1,
                    pow2((e - e2) as nat) == 2 * pow2((e - e2 - 1) as nat),
                    pow2((e - e2 - 1) as nat) >= threshold,
            ;
        }
    }
}

/// The single-precision bit pattern with sign `neg` and magnitude `mag`,
/// for `mag` within the format's exact range (at most `2^24`).
pub open spec fn fp32_encode(neg: bool, mag: nat) -> Fp32 {
    let sign: u32 = if neg {
        0x8000_0000u32
    } else {
        0u32
    };
    if mag == 0 {
        Fp32 { bits: sign }
    } else if mag == 0x100_0000 {
        Fp32 { bits: sign | (151u32 << 23) }
    } else {
        let (m2, e2) = norm_up(mag, 150, 0x80_0000);
        Fp32 { bits: sign | ((e2 as u32) << 23) | ((m2 - 0x80_0000) as u32) }
    }
}

/// The double-precision bit pattern with sign `neg` and magnitude `mag`,
/// for `mag` within the format's exact range (at most `2^53`).
pub open spec fn fp64_encode(neg: bool, mag: nat) -> Fp64 {
    let sign: u64 = if neg {
        0x8000_0000_0000_0000u64
    } else {
        0u64
    };
    if mag == 0 {
        Fp64 { bits: sign }
    } else if mag == 0x20_0000_0000_0000 {
        Fp64 { bits: sign | (1076u64 << 52) }
    } else {
        let (m2, e2) = norm_up(mag, 1075, 0x10_0000_0000_0000);
        Fp64 { bits: sign | ((e2 as u64) << 52) | ((m2 - 0x10_0000_0000_0000) as u64) }
    }
}

/// Extracting the fields of a composed single-precision pattern gives back
/// the parts it was composed from.
pub(crate) proof fn lemma_fp32_fields(s: u32, e: u32, f: u32, b: u32)
    requires
        s <= 1,
        e < 256,
        f < 0x80_0000,
        b == (s << 31) | (e << 23) | f,
    ensures
        (b >> 31) == s,
        (b >> 23) & 0xff == e,
        b & 0x7f_ffff == f,
{
    assert((b >> 31) == s && (b >> 23) & 0xff == e && b & 0x7f_ffff == f) by (bit_vector)
        requires
            s <= 1,
            e < 256,
            f < 0x80_0000,
            b == (s << 31) | (e << 23) | f,
    ;
}

/// Extracting the fields of a composed double-precision pattern gives back
/// the parts it was composed from.
pub(crate) proof fn lemma_fp64_fields(s: u64, e: u64, f: u64, b: u64)
    requires
        s <= 1,
        e < 2048,
        f < 0x10_0000_0000_0000,
        b == (s << 63) | (e << 52) | f,
    ensures
        (b >> 63) == s,
        (b >> 52) & 0x7ff == e,
        b & 0xf_ffff_ffff_ffff == f,
{
    assert((b >> 63) == s && (b >> 52) & 0x7ff == e && b & 0xf_ffff_ffff_ffff == f)
        by (bit_vector)
        requires
            s <= 1,
            e < 2048,
            f < 0x10_0000_0000_0000,
            b == (s << 63) | (e << 52) | f,
    ;
}

/// The encoded single-precision value is finite and has exactly the value
/// `signed_mag(neg, mag)`.
pub proof fn lemma_fp32_encode_value(neg: bool, mag: nat)
    requires
        mag <= 0x100_0000,
    ensures
        !fp32_encode(neg, mag).is_nan_spec(),
        fp32_encode(neg, mag).sign_spec() == neg,
        fp32_encode(neg, mag).mag_scaled() == mag * pow2(149),
{
    let sign: u32 = if neg {
        0x8000_0000u32
    } else {
        0u32
    };
    let r = fp32_encode(neg, mag);
    lemma2_to64();
    lemma2_to64_rest();
    if mag == 0 {
        if neg {
            assert(0x8000_0000u32 == (1u32 << 31) | (0u32 << 23) | 0u32) by (bit_vector);
        } else {
            assert(0u32 == (0u32 << 31) | (0u32 << 23) | 0u32) by (bit_vector);
        }
        lemma_fp32_fields(if neg { 1 } else { 0 }, 0, 0, r.bits);
    } else if mag == 0x100_0000 {
        if neg {
            assert(0x8000_0000u32 | (151u32 << 23) == (1u32 << 31) | (151u32 << 23) | 0u32)
                by (bit_vector);
        } else {
            assert(0u32 | (151u32 << 23) == (0u32 << 31) | (151u32 << 23) | 0u32) by (bit_vector);
        }
        lemma_fp32_fields(if neg { 1 } else { 0 }, 151, 0, r.bits);
        // 2^23 * 2^150 == 2^24 * 2^149.
        assert(pow2(150) == 2 * pow2(149)) by {
            lemma_pow2_adds(149, 1);
        }
        assert(0x80_0000 * pow2(150) == mag * pow2(149)) by (nonlinear_arith)
            requires
                mag == 0x100_0000,
                pow2(150) == 2 * pow2(149),
        ;
        assert(r.mag_scaled() == 0x80_0000 * pow2((151 - 1) as nat));
    } else {
        lemma_norm_up(mag, 150, 0x80_0000, 23);
        let (m2, e2) = norm_up(mag, 150, 0x80_0000);
        // 150 - e2 <= 23, so e2 >= 127; and m2 < 2^24.
        let eu: u32 = e2 as u32;
        let fu: u32 = (m2 - 0x80_0000) as u32;
        if neg {
            assert((0x8000_0000u32 | (eu << 23)) | fu == ((1u32 << 31) | (eu << 23)) | fu)
                by (bit_vector);
        } else {
            assert((0u32 | (eu << 23)) | fu == ((0u32 << 31) | (eu << 23)) | fu)
                by (bit_vector);
        }
        lemma_fp32_fields(if neg { 1 } else { 0 }, eu, fu, r.bits);
        // mag_scaled == m2 * 2^(e2 - 1) == mag * 2^(150 - e2) * 2^(e2 - 1)
        //            == mag * 2^149.
        lemma_pow2_adds((150 - e2) as nat, (e2 - 1) as nat);
        assert((mag * pow2((150 - e2) as nat)) * pow2((e2 - 1) as nat) == mag * pow2(149))
            by (nonlinear_arith)
            requires
                pow2((150 - e2) as nat) * pow2((e2 - 1) as nat) == pow2(149),
        ;
    }
}

/// The encoded double-precision value is finite and has exactly the value
/// `signed_mag(neg, mag)`.
pub proof fn lemma_fp64_encode_value(neg: bool, mag: nat)
    requires
        mag <= 0x20_0000_0000_0000,
    ensures
        !fp64_encode(neg, mag).is_nan_spec(),
        fp64_encode(neg, mag).sign_spec() == neg,
        fp64_encode(neg, mag).mag_scaled() == mag * pow2(1074),
{
    let sign: u64 = if neg {
        0x8000_0000_0000_0000u64
    } else {
        0u64
    };
    let r = fp64_encode(neg, mag);
    lemma2_to64();
    lemma2_to64_rest();
    if mag == 0 {
        if neg {
            assert(0x8000_0000_0000_0000u64 == (1u64 << 63) | (0u64 << 52) | 0u64)
                by (bit_vector);
        } else {
            assert(0u64 == (0u64 << 63) | (0u64 << 52) | 0u64) by (bit_vector);
        }
        lemma_fp64_fields(if neg { 1 } else { 0 }, 0, 0, r.bits);
    } else if mag == 0x20_0000_0000_0000 {
        if neg {
            assert(0x8000_0000_0000_0000u64 | (1076u64 << 52) == (1u64 << 63) | (1076u64 << 52)
                | 0u64) by (bit_vector);
        } else {
            assert(0u64 | (1076u64 << 52) == (0u64 << 63) | (1076u64 << 52) | 0u64)
                by (bit_vector);
        }
        lemma_fp64_fields(if neg { 1 } else { 0 }, 1076, 0, r.bits);
        assert(pow2(53) == 0x20_0000_0000_0000 && pow2(52) == 0x10_0000_0000_0000) by {
            lemma_pow2_adds(32, 21);
            lemma_pow2_adds(32, 20);
        }
        assert(pow2((1076 - 1) as nat) == pow2(1074) * 2) by {
            lemma_pow2_adds(1074, 1);
        }
        assert(0x10_0000_0000_0000 * pow2((1076 - 1) as nat) == mag * pow2(1074))
            by (nonlinear_arith)
            requires
                mag == 0x20_0000_0000_0000,
                pow2((1076 - 1) as nat) == pow2(1074) * 2,
                0x20_0000_0000_0000 == 2 * 0x10_0000_0000_0000,
        ;
    } else {
        lemma_norm_up(mag, 1075, 0x10_0000_0000_0000, 52);
        let (m2, e2) = norm_up(mag, 1075, 0x10_0000_0000_0000);
        assert(pow2(52) == 0x10_0000_0000_0000) by {
            lemma_pow2_adds(32, 20);
        }
        let eu: u64 = e2 as u64;
        let fu: u64 = (m2 - 0x10_0000_0000_0000) as u64;
        if neg {
            assert((0x8000_0000_0000_0000u64 | (eu << 52)) | fu == ((1u64 << 63) | (eu << 52))
                | fu) by (bit_vector);
        } else {
            assert((0u64 | (eu << 52)) | fu == ((0u64 << 63) | (eu << 52)) | fu)
                by (bit_vector);
        }
        lemma_fp64_fields(if neg { 1 } else { 0 }, eu, fu, r.bits);
        lemma_pow2_adds((1075 - e2) as nat, (e2 - 1) as nat);
        assert((mag * pow2((1075 - e2) as nat)) * pow2((e2 - 1) as nat) == mag * pow2(1074))
            by (nonlinear_arith)
            requires
                pow2((1075 - e2) as nat) * pow2((e2 - 1) as nat) == pow2(1074),
        ;
    }
}

/// Builds the single-precision value with sign `neg` and magnitude `mag`.
pub fn fp32_from_mag(neg: bool, mag: u64) -> (r: Fp32)
    requires
        mag <= 0x100_0000,
    ensures
        r == fp32_encode(neg, mag as nat),
{
    let sign: u32 = if neg {
        0x8000_0000
    } else {
        0
    };
    if mag == 0 {
        Fp32 { bits: sign }
    } else if mag == 0x100_0000 {
        Fp32 { bits: sign | (151u32 << 23) }
    } else {
        let mut m: u32 = mag as u32;
        let mut e: u32 = 150;
        proof {
            lemma2_to64();
            assert(mag as int * pow2(0) == mag as int);
        }
        while m < 0x80_0000
            invariant
                1 <= m < 0x100_0000,
                e <= 150,
                1 <= mag < 0x100_0000,
                m as int == mag as int * pow2((150 - e) as nat),
                norm_up(mag as nat, 150, 0x80_0000) == norm_up(m as nat, e as int, 0x80_0000),
            decreases (if m < 0x80_0000 {
                0x80_0000int - m
            } else {
                0int
            }),
        {
            proof {
                lemma2_to64();
                lemma_pow2_pos((150 - e) as nat);
                assert(m as int >= pow2((150 - e) as nat)) by (nonlinear_arith)
                    requires
                        m as int == mag as int * pow2((150 - e) as nat),
                        mag >= 1,
                        pow2((150 - e) as nat) > 0,
                ;
                if 150 - e >= 23 {
                    if 150 - e > 23 {
                        lemma_pow2_strictly_increases(23, (150 - e) as nat);
                    }
                    assert(false);
                }
                lemma_pow2_unfold((151 - e) as nat);
                assert(2 * (m as int) == mag as int * pow2((151 - e) as nat))
                    by (nonlinear_arith)
                    requires
                        m as int == mag as int * pow2((150 - e) as nat),
                        pow2((151 - e) as nat) == 2 * pow2((150 - e) as nat),
                ;
            }
            m = m * 2;
            e = e - 1;
        }
                Fp32 { bits: sign | (e << 23) | (m - 0x80_0000) }
    }
}

/// Builds the double-precision value with sign `neg` and magnitude `mag`.
pub fn fp64_from_mag(neg: bool, mag: u64) -> (r: Fp64)
    requires
        mag <= 0x20_0000_0000_0000,
    ensures
        r == fp64_encode(neg, mag as nat),
{
    let sign: u64 = if neg {
        0x8000_0000_0000_0000
    } else {
        0
    };
    if mag == 0 {
        Fp64 { bits: sign }
    } else if mag == 0x20_0000_0000_0000 {
        Fp64 { bits: sign | (1076u64 << 52) }
    } else {
        let mut m: u64 = mag;
        let mut e: u64 = 1075;
        proof {
            lemma2_to64();
            assert(mag as int * pow2(0) == mag as int);
        }
        while m < 0x10_0000_0000_0000
            invariant
                1 <= m < 0x20_0000_0000_0000,
                e <= 1075,
                1 <= mag < 0x20_0000_0000_0000,
                m as int == mag as int * pow2((1075 - e) as nat),
                norm_up(mag as nat, 1075, 0x10_0000_0000_0000) == norm_up(
                    m as nat,
                    e as int,
                    0x10_0000_0000_0000,
                ),
            decreases (if m < 0x10_0000_0000_0000 {
                0x10_0000_0000_0000int - m
            } else {
                0int
            }),
        {
            proof {
                lemma2_to64();
                lemma2_to64_rest();
                lemma_pow2_pos((1075 - e) as nat);
                assert(m as int >= pow2((1075 - e) as nat)) by (nonlinear_arith)
                    requires
                        m as int == mag as int * pow2((1075 - e) as nat),
                        mag >= 1,
                        pow2((1075 - e) as nat) > 0,
                ;
                if 1075 - e >= 52 {
                    if 1075 - e > 52 {
                        lemma_pow2_strictly_increases(52, (1075 - e) as nat);
                    }
                    assert(false);
                }
                lemma_pow2_unfold((1076 - e) as nat);
                assert(2 * (m as int) == mag as int * pow2((1076 - e) as nat))
                    by (nonlinear_arith)
                    requires
                        m as int == mag as int * pow2((1075 - e) as nat),
                        pow2((1076 - e) as nat) == 2 * pow2((1075 - e) as nat),
                ;
            }
            m = m * 2;
            e = e - 1;
        }
                Fp64 { bits: sign | (e << 52) | (m - 0x10_0000_0000_0000) }
    }
}

/// The magnitude of the value of `src`, split into a sign and a `u64`.
fn sign_split<S: PrimInt>(src: S) -> (d: (bool, u64))
    ensures
        d.0 == (src.as_int() < 0),
        d.1 as int == if src.as_int() < 0 {
            -src.as_int()
        } else {
            src.as_int()
        },
{
    proof {
        src.lemma_in_range();
        S::lemma_bounds();
    }
    let w = src.to_wide();
    if w < 0 {
        (true, (-w) as u64)
    } else {
        (false, w as u64)
    }
}

/// Total conversion into single precision: every value of the source type
/// is exactly representable.
pub fn convert_exact_fp32<S: PrimInt>(src: S) -> (r: Result<Fp32, NoError>)
    requires
        -0x100_0000 <= S::min_int(),
        S::max_int() <= 0x100_0000,
    ensures
        r == fp32_exact_spec::<S>(src),
        r is Ok,
        !r->Ok_0.is_nan_spec(),
        r->Ok_0.mag_scaled() == abs_int(src.as_int()) * pow2(149),
        r->Ok_0.sign_spec() == (src.as_int() < 0),
{
    proof {
        src.lemma_in_range();
        lemma_fp32_encode_value(src.as_int() < 0, abs_int(src.as_int()));
    }
    let (neg, mag) = sign_split(src);
    Ok(fp32_from_mag(neg, mag))
}

/// The outcome of a total conversion into single precision.
pub open spec fn fp32_exact_spec<S: PrimInt>(src: S) -> Result<Fp32, NoError> {
    Ok(fp32_encode(src.as_int() < 0, abs_int(src.as_int())))
}

/// The absolute value, as a `nat`.
pub open spec fn abs_int(v: int) -> nat {
    if v < 0 {
        (-v) as nat
    } else {
        v as nat
    }
}

/// The outcome of a conversion into single precision bounded on both
/// sides: the format represents every integer in `[lo, hi]` exactly, and
/// anything outside is rejected.
pub open spec fn fp32_bounded_spec<S: PrimInt>(src: S, lo: int, hi: int) -> Result<
    Fp32,
    RangeError<S>,
> {
    if src.as_int() < lo {
        Err(RangeError::NegOverflow(src))
    } else if src.as_int() > hi {
        Err(RangeError::PosOverflow(src))
    } else {
        Ok(fp32_encode(src.as_int() < 0, abs_int(src.as_int())))
    }
}

/// The outcome of a conversion into single precision bounded above only.
pub open spec fn fp32_pos_bounded_spec<S: PrimInt>(src: S, hi: int) -> Result<
    Fp32,
    PosOverflow<S>,
> {
    if src.as_int() > hi {
        Err(PosOverflow(src))
    } else {
        Ok(fp32_encode(src.as_int() < 0, abs_int(src.as_int())))
    }
}

/// Conversion into single precision with symmetric bounds `[-bound,
/// bound]`.
pub fn convert_bounded_fp32<S: PrimInt>(src: S, bound: i128) -> (r: Result<Fp32, RangeError<S>>)
    requires
        0 < bound <= 0x100_0000,
    ensures
        r == fp32_bounded_spec::<S>(src, -bound as int, bound as int),
        r is Ok ==> !r->Ok_0.is_nan_spec() && r->Ok_0.mag_scaled() == abs_int(src.as_int())
            * pow2(149) && r->Ok_0.sign_spec() == (src.as_int() < 0),
{
    proof {
        src.lemma_in_range();
        S::lemma_bounds();
        if -bound <= src.as_int() <= bound {
            lemma_fp32_encode_value(src.as_int() < 0, abs_int(src.as_int()));
        }
    }
    let w = src.to_wide();
    if w < -bound {
        Err(RangeError::NegOverflow(src))
    } else if w > bound {
        Err(RangeError::PosOverflow(src))
    } else {
        let (neg, mag) = sign_split(src);
        Ok(fp32_from_mag(neg, mag))
    }
}

/// Conversion into single precision bounded above only, for an unsigned
/// source.
pub fn convert_pos_bounded_fp32<S: PrimInt>(src: S, bound: i128) -> (r: Result<
    Fp32,
    PosOverflow<S>,
>)
    requires
        0 < bound <= 0x100_0000,
        S::min_int() >= 0,
    ensures
        r == fp32_pos_bounded_spec::<S>(src, bound as int),
        r is Ok ==> !r->Ok_0.is_nan_spec() && r->Ok_0.mag_scaled() == abs_int(src.as_int())
            * pow2(149),
{
    proof {
        src.lemma_in_range();
        S::lemma_bounds();
        if src.as_int() <= bound {
            lemma_fp32_encode_value(src.as_int() < 0, abs_int(src.as_int()));
        }
    }
    let w = src.to_wide();
    if w > bound {
        Err(PosOverflow(src))
    } else {
        let (neg, mag) = sign_split(src);
        Ok(fp32_from_mag(neg, mag))
    }
}

/// The outcome of a total conversion into double precision.
pub open spec fn fp64_exact_spec<S: PrimInt>(src: S) -> Result<Fp64, NoError> {
    Ok(fp64_encode(src.as_int() < 0, abs_int(src.as_int())))
}

/// The outcome of a conversion into double precision bounded on both
/// sides.
pub open spec fn fp64_bounded_spec<S: PrimInt>(src: S, lo: int, hi: int) -> Result<
    Fp64,
    RangeError<S>,
> {
    if src.as_int() < lo {
        Err(RangeError::NegOverflow(src))
    } else if src.as_int() > hi {
        Err(RangeError::PosOverflow(src))
    } else {
        Ok(fp64_encode(src.as_int() < 0, abs_int(src.as_int())))
    }
}

/// The outcome of a conversion into double precision bounded above only.
pub open spec fn fp64_pos_bounded_spec<S: PrimInt>(src: S, hi: int) -> Result<
    Fp64,
    PosOverflow<S>,
> {
    if src.as_int() > hi {
        Err(PosOverflow(src))
    } else {
        Ok(fp64_encode(src.as_int() < 0, abs_int(src.as_int())))
    }
}

/// Total conversion into double precision: every value of the source type
/// is exactly representable.
pub fn convert_exact_fp64<S: PrimInt>(src: S) -> (r: Result<Fp64, NoError>)
    requires
        -0x20_0000_0000_0000 <= S::min_int(),
        S::max_int() <= 0x20_0000_0000_0000,
    ensures
        r == fp64_exact_spec::<S>(src),
        r is Ok,
        !r->Ok_0.is_nan_spec(),
        r->Ok_0.mag_scaled() == abs_int(src.as_int()) * pow2(1074),
        r->Ok_0.sign_spec() == (src.as_int() < 0),
{
    proof {
        src.lemma_in_range();
        lemma_fp64_encode_value(src.as_int() < 0, abs_int(src.as_int()));
    }
    let (neg, mag) = sign_split(src);
    Ok(fp64_from_mag(neg, mag))
}

/// Conversion into double precision with symmetric bounds `[-bound,
/// bound]`.
pub fn convert_bounded_fp64<S: PrimInt>(src: S, bound: i128) -> (r: Result<Fp64, RangeError<S>>)
    requires
        0 < bound <= 0x20_0000_0000_0000,
    ensures
        r == fp64_bounded_spec::<S>(src, -bound as int, bound as int),
        r is Ok ==> !r->Ok_0.is_nan_spec() && r->Ok_0.mag_scaled() == abs_int(src.as_int())
            * pow2(1074) && r->Ok_0.sign_spec() == (src.as_int() < 0),
{
    proof {
        src.lemma_in_range();
        S::lemma_bounds();
        if -bound <= src.as_int() <= bound {
            lemma_fp64_encode_value(src.as_int() < 0, abs_int(src.as_int()));
        }
    }
    let w = src.to_wide();
    if w < -bound {
        Err(RangeError::NegOverflow(src))
    } else if w > bound {
        Err(RangeError::PosOverflow(src))
    } else {
        let (neg, mag) = sign_split(src);
        Ok(fp64_from_mag(neg, mag))
    }
}

/// Conversion into double precision bounded above only, for an unsigned
/// source.
pub fn convert_pos_bounded_fp64<S: PrimInt>(src: S, bound: i128) -> (r: Result<
    Fp64,
    PosOverflow<S>,
>)
    requires
        0 < bound <= 0x20_0000_0000_0000,
        S::min_int() >= 0,
    ensures
        r == fp64_pos_bounded_spec::<S>(src, bound as int),
        r is Ok ==> !r->Ok_0.is_nan_spec() && r->Ok_0.mag_scaled() == abs_int(src.as_int())
            * pow2(1074),
{
    proof {
        src.lemma_in_range();
        S::lemma_bounds();
        if src.as_int() <= bound {
            lemma_fp64_encode_value(src.as_int() < 0, abs_int(src.as_int()));
        }
    }
    let w = src.to_wide();
    if w > bound {
        Err(PosOverflow(src))
    } else {
        let (neg, mag) = sign_split(src);
        Ok(fp64_from_mag(neg, mag))
    }
}

} // verus!
