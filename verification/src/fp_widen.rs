//! Conversions between the two floating-point formats.
//!
//! Widening (single to double precision) is total and exact: every
//! single-precision value, subnormals included, is a normal
//! double-precision value.  Narrowing is approximate: a finite value
//! beyond the single-precision format's finite range is rejected with a
//! range error; anything else is rounded to the nearest single-precision
//! value, ties to the even mantissa, written out below as exact integer
//! arithmetic on the decoded mantissa.  Not-a-number converts to the
//! canonical quiet not-a-number, and infinities convert to infinities,
//! keeping their signs.

use vstd::arithmetic::div_mod::{lemma_basic_div, lemma_small_mod};
use vstd::arithmetic::power2::{
    lemma2_to64, lemma2_to64_rest, lemma_pow2_adds, lemma_pow2_pos, lemma_pow2_strictly_increases,
    lemma_pow2_unfold, pow2,
};
use vstd::prelude::*;

use crate::errors::RangeError;
use crate::fp::{Fp32, Fp64};
use crate::fp_from_int::norm_up;

verus! {

/// The double-precision value with the same numeric value as the given
/// single-precision value; not-a-number maps to the canonical quiet
/// not-a-number and infinities to infinities, signs kept.
pub open spec fn fp32_to_fp64_spec(src: Fp32) -> Fp64 {
    let sign: u64 = if src.sign_spec() {
        0x8000_0000_0000_0000u64
    } else {
        0u64
    };
    if src.is_nan_spec() {
        Fp64 { bits: sign | 0x7ff8_0000_0000_0000 }
    } else if src.is_infinite_spec() {
        Fp64 { bits: sign | 0x7ff0_0000_0000_0000 }
    } else if src.mag_scaled() == 0 {
        Fp64 { bits: sign }
    } else {
        let m = if src.exp_spec() == 0 {
            src.frac_spec() as nat
        } else {
            (0x80_0000 + src.frac_spec()) as nat
        };
        let t = if src.exp_spec() == 0 {
            0int
        } else {
            src.exp_spec() - 1
        };
        // The double-precision scaled magnitude is m * 2^(t + 925); bring
        // the mantissa to 53 bits and read off the exponent field.
        let (m2, e2) = norm_up(m, t + 926, 0x10_0000_0000_0000);
        Fp64 { bits: sign | ((e2 as u64) << 52) | ((m2 - 0x10_0000_0000_0000) as u64) }
    }
}

/// Converts a single-precision value to double precision.
pub fn fp32_to_fp64(src: Fp32) -> (r: Fp64)
    ensures
        r == fp32_to_fp64_spec(src),
        r.is_nan_spec() <==> src.is_nan_spec(),
        !src.is_nan_spec() && !src.is_infinite_spec() ==> !r.is_nan_spec()
            && !r.is_infinite_spec() && r.sign_spec() == src.sign_spec() && r.mag_scaled()
            == src.mag_scaled() * vstd::arithmetic::power2::pow2(925),
{
    proof {
        lemma_widen_nan(src);
        if !src.is_nan_spec() && !src.is_infinite_spec() {
            lemma_widen_value(src);
        }
    }
    let b = src.bits;
    let neg = (b >> 31) == 1;
    let e = (b >> 23) & 0xff;
    let f = b & 0x7f_ffff;
    proof {
        assert((b >> 23) & 0xff < 256 && b & 0x7f_ffff < 0x80_0000) by (bit_vector);
    }
    let sign: u64 = if neg {
        0x8000_0000_0000_0000
    } else {
        0
    };
    if e == 0xff && f != 0 {
        Fp64 { bits: sign | 0x7ff8_0000_0000_0000 }
    } else if e == 0xff {
        Fp64 { bits: sign | 0x7ff0_0000_0000_0000 }
    } else if e == 0 && f == 0 {
        Fp64 { bits: sign }
    } else {
        let mut m: u64 = if e == 0 {
            f as u64
        } else {
            (0x80_0000 + f) as u64
        };
        let t: u32 = if e == 0 {
            0
        } else {
            e - 1
        };
        let ghost m0 = m as nat;
        let mut ex: u32 = t + 926;
        proof {
            lemma2_to64();
            assert(m0 * pow2(0) == m0) by (nonlinear_arith)
                requires
                    pow2(0) == 1,
            ;
            if e != 0 {
                lemma_pow2_pos((e - 1) as nat);
                assert(src.mag_scaled() > 0) by (nonlinear_arith)
                    requires
                        src.mag_scaled() == (0x80_0000 + src.frac_spec()) as int * pow2(
                            (src.exp_spec() - 1) as nat,
                        ),
                        pow2((src.exp_spec() - 1) as nat) > 0,
                ;
            }
        }
        while m < 0x10_0000_0000_0000
            invariant
                1 <= m < 0x20_0000_0000_0000,
                ex <= t + 926,
                926 <= t + 926 <= 1180,
                1 <= m0 < 0x100_0000,
                m as int == m0 as int * pow2((t + 926 - ex) as nat),
                norm_up(m0, t + 926, 0x10_0000_0000_0000) == norm_up(
                    m as nat,
                    ex as int,
                    0x10_0000_0000_0000,
                ),
            decreases (if m < 0x10_0000_0000_0000 {
                0x10_0000_0000_0000int - m
            } else {
                0int
            }),
        {
            proof {
                lemma2_to64();
                lemma2_to64_rest();
                lemma_pow2_pos((t + 926 - ex) as nat);
                assert(m as int >= pow2((t + 926 - ex) as nat)) by (nonlinear_arith)
                    requires
                        m as int == m0 as int * pow2((t + 926 - ex) as nat),
                        m0 >= 1,
                        pow2((t + 926 - ex) as nat) > 0,
                ;
                if t + 926 - ex >= 53 {
                    if t + 926 - ex > 53 {
                        lemma_pow2_strictly_increases(53, (t + 926 - ex) as nat);
                    }
                    assert(false);
                }
                lemma_pow2_unfold((t + 926 - ex + 1) as nat);
                assert(2 * (m as int) == m0 as int * pow2((t + 926 - ex + 1) as nat))
                    by (nonlinear_arith)
                    requires
                        m as int == m0 as int * pow2((t + 926 - ex) as nat),
                        pow2((t + 926 - ex + 1) as nat) == 2 * pow2((t + 926 - ex) as nat),
                ;
            }
            m = m * 2;
            ex = ex - 1;
        }
        proof {
            assert(norm_up(m0, t + 926, 0x10_0000_0000_0000) == (m as nat, ex as int));
        }
        Fp64 { bits: sign | ((ex as u64) << 52) | (m - 0x10_0000_0000_0000) }
    }
}

/// Whether rounding to the nearest value rounds the magnitude up: the
/// remainder is beyond the half unit, or exactly the half unit and the
/// quotient is odd (ties to even).
pub open spec fn round_even_up(q: nat, r: nat, half: nat) -> bool {
    r > half || (r == half && q % 2 == 1)
}

/// The single-precision value nearest to the magnitude `m * 2^t` in
/// double-precision scaled units (`0 < m < 2^53`, at most the largest
/// finite single-precision magnitude), ties to the even mantissa, with
/// the sign `neg`.
pub open spec fn fp32_round_even(neg: bool, m: nat, t: nat) -> Fp32 {
    let sign: u32 = if neg {
        0x8000_0000u32
    } else {
        0u32
    };
    // Normalize to 53 bits; the biased weight ee means the magnitude is
    // mn * 2^(ee - 52) double-scaled units, mn in [2^52, 2^53).
    let (mn, ee) = norm_up(m, t + 52int, 0x10_0000_0000_0000);
    if ee >= 948 {
        // Normal result: a 24-bit mantissa with exponent field ee - 947.
        let q = mn / pow2(29);
        let r = mn % pow2(29);
        let m32 = if round_even_up(q, r, pow2(28)) {
            q + 1
        } else {
            q
        };
        if m32 == 0x100_0000 {
            Fp32 { bits: sign | (((ee - 946) as u32) << 23) }
        } else {
            Fp32 { bits: sign | (((ee - 947) as u32) << 23) | ((m32 - 0x80_0000) as u32) }
        }
    } else {
        // Subnormal result (or zero): shift the mantissa below the
        // format's normal range; a carry into bit 23 lands in the normal
        // range with exponent field 1, which is exactly the encoding.
        let s = (977 - ee) as nat;
        let q = mn / pow2(s);
        let r = mn % pow2(s);
        let m32 = if round_even_up(q, r, pow2((s - 1) as nat)) {
            q + 1
        } else {
            q
        };
        Fp32 { bits: sign | (m32 as u32) }
    }
}

/// The largest finite single-precision magnitude, in double-precision
/// scaled units, is `(2^24 - 1) * 2^1178`.
pub open spec fn fp32_max_scaled64() -> int {
    0xff_ffff * pow2(1178) as int
}

/// The outcome of narrowing a double-precision value to single precision:
/// not-a-number and the infinities convert to their single-precision
/// counterparts; a finite value beyond the single-precision finite range
/// is rejected; anything else is rounded to the nearest single-precision
/// value, ties to the even mantissa.
pub open spec fn fp64_to_fp32_spec(src: Fp64) -> Result<Fp32, RangeError<Fp64>> {
    let sign: u32 = if src.sign_spec() {
        0x8000_0000u32
    } else {
        0u32
    };
    if src.is_nan_spec() {
        Ok(Fp32 { bits: sign | 0x7fc0_0000 })
    } else if src.is_infinite_spec() {
        Ok(Fp32 { bits: sign | 0x7f80_0000 })
    } else if src.scaled_spec() < -fp32_max_scaled64() {
        Err(RangeError::NegOverflow(src))
    } else if src.scaled_spec() > fp32_max_scaled64() {
        Err(RangeError::PosOverflow(src))
    } else if src.mag_scaled() == 0 {
        Ok(Fp32 { bits: sign })
    } else {
        let m = if src.exp_spec() == 0 {
            src.frac_spec() as nat
        } else {
            (0x10_0000_0000_0000 + src.frac_spec()) as nat
        };
        let t = if src.exp_spec() == 0 {
            0nat
        } else {
            (src.exp_spec() - 1) as nat
        };
        Ok(fp32_round_even(src.sign_spec(), m, t))
    }
}

/// Two 53-bit-normalized magnitudes compare by their exponents first, then
/// by their mantissas.
proof fn lemma_cmp_norm(a: nat, i: nat, b: nat, j: nat)
    requires
        0x10_0000_0000_0000 <= a < 0x20_0000_0000_0000,
        0x10_0000_0000_0000 <= b < 0x20_0000_0000_0000,
    ensures
        a * pow2(i) > b * pow2(j) <==> (i > j || (i == j && a > b)),
{
    if i == j {
        lemma_pow2_pos(i);
        assert(a * pow2(i) > b * pow2(j) <==> a > b) by (nonlinear_arith)
            requires
                i == j,
                pow2(i) > 0,
                pow2(i) == pow2(j),
        ;
    } else if i < j {
        lemma_pow2_pos(i);
        lemma_pow2_pos((j - i - 1) as nat);
        lemma_pow2_adds(1, i);
        lemma_pow2_adds((j - i - 1) as nat, (i + 1) as nat);
        lemma2_to64();
        // a * 2^i < 2^53 * 2^i <= 2^(j - 1) * 2^53... <= b * 2^j.
        assert(a * pow2(i) < b * pow2(j)) by (nonlinear_arith)
            requires
                a < 0x20_0000_0000_0000,
                b >= 0x10_0000_0000_0000,
                pow2((i + 1) as nat) == 2 * pow2(i),
                pow2(j) == pow2((j - i - 1) as nat) * pow2((i + 1) as nat),
                pow2((j - i - 1) as nat) >= 1,
                pow2(i) > 0,
                0x20_0000_0000_0000 == 2 * 0x10_0000_0000_0000,
        ;
    } else {
        lemma_pow2_pos(j);
        lemma_pow2_pos((i - j - 1) as nat);
        lemma_pow2_adds(1, j);
        lemma_pow2_adds((i - j - 1) as nat, (j + 1) as nat);
        lemma2_to64();
        assert(b * pow2(j) < a * pow2(i)) by (nonlinear_arith)
            requires
                b < 0x20_0000_0000_0000,
                a >= 0x10_0000_0000_0000,
                pow2((j + 1) as nat) == 2 * pow2(j),
                pow2(i) == pow2((i - j - 1) as nat) * pow2((j + 1) as nat),
                pow2((i - j - 1) as nat) >= 1,
                pow2(j) > 0,
                0x20_0000_0000_0000 == 2 * 0x10_0000_0000_0000,
        ;
    }
}

/// Narrows a double-precision value to single precision, rounding to
/// nearest with ties to the even mantissa.
pub fn fp64_to_fp32(src: Fp64) -> (r: Result<Fp32, RangeError<Fp64>>)
    ensures
        r == fp64_to_fp32_spec(src),
        src.is_nan_spec() ==> r is Ok && r->Ok_0.is_nan_spec(),
{
    proof {
        if src.is_nan_spec() {
            lemma_narrow_nan(src);
        }
    }
    let b = src.bits;
    let neg = (b >> 63) == 1;
    let e = (b >> 52) & 0x7ff;
    let f = b & 0xf_ffff_ffff_ffff;
    proof {
        assert((b >> 52) & 0x7ff < 0x800 && b & 0xf_ffff_ffff_ffff < 0x10_0000_0000_0000)
            by (bit_vector);
        lemma2_to64();
        lemma2_to64_rest();
    }
    let sign: u32 = if neg {
        0x8000_0000
    } else {
        0
    };
    if e == 0x7ff && f != 0 {
        return Ok(Fp32 { bits: sign | 0x7fc0_0000 });
    }
    if e == 0x7ff {
        return Ok(Fp32 { bits: sign | 0x7f80_0000 });
    }
    if e == 0 && f == 0 {
        return Ok(Fp32 { bits: sign });
    }
    proof {
        if e != 0 {
            lemma_pow2_pos((e - 1) as nat);
            assert(src.mag_scaled() > 0) by (nonlinear_arith)
                requires
                    src.mag_scaled() == (0x10_0000_0000_0000 + src.frac_spec()) as int * pow2(
                        (src.exp_spec() - 1) as nat,
                    ),
                    pow2((src.exp_spec() - 1) as nat) > 0,
            ;
        }
    }
    let m_start: u64 = if e == 0 {
        f
    } else {
        0x10_0000_0000_0000 + f
    };
    let t: u32 = if e == 0 {
        0
    } else {
        (e - 1) as u32
    };
    let ghost m0 = m_start as nat;
    // Normalize to [2^52, 2^53); afterwards the magnitude is
    // mn * 2^(ee - 52) double-scaled units.
    let mut mn: u64 = m_start;
    let mut ee: u32 = t + 52;
    proof {
        lemma2_to64();
        assert(m0 * pow2(0) == m0);
    }
    while mn < 0x10_0000_0000_0000
        invariant
            1 <= mn < 0x20_0000_0000_0000,
            ee <= t + 52,
            t + 52 <= 2098,
            1 <= m0 < 0x20_0000_0000_0000,
            mn as int == m0 as int * pow2((t + 52 - ee) as nat),
            norm_up(m0, t + 52, 0x10_0000_0000_0000) == norm_up(
                mn as nat,
                ee as int,
                0x10_0000_0000_0000,
            ),
        decreases (if mn < 0x10_0000_0000_0000 {
            0x10_0000_0000_0000int - mn
        } else {
            0int
        }),
    {
        proof {
            lemma2_to64();
            lemma2_to64_rest();
            lemma_pow2_pos((t + 52 - ee) as nat);
            assert(mn as int >= pow2((t + 52 - ee) as nat)) by (nonlinear_arith)
                requires
                    mn as int == m0 as int * pow2((t + 52 - ee) as nat),
                    m0 >= 1,
                    pow2((t + 52 - ee) as nat) > 0,
            ;
            if t + 52 - ee >= 53 {
                if t + 52 - ee > 53 {
                    lemma_pow2_strictly_increases(53, (t + 52 - ee) as nat);
                }
                assert(false);
            }
            lemma_pow2_unfold((t + 52 - ee + 1) as nat);
            assert(2 * (mn as int) == m0 as int * pow2((t + 52 - ee + 1) as nat))
                by (nonlinear_arith)
                requires
                    mn as int == m0 as int * pow2((t + 52 - ee) as nat),
                    pow2((t + 52 - ee + 1) as nat) == 2 * pow2((t + 52 - ee) as nat),
            ;
        }
        mn = mn * 2;
        ee = ee - 1;
    }
    // The magnitude compares with the largest finite single-precision
    // magnitude, (2^24 - 1) * 2^1178, by exponent and then mantissa: in
    // the same normalized form that bound is 0x1f_ffff_e000_0000 * 2^(1201 - 52).
    let ghost mag = src.mag_scaled();
    proof {
        assert(norm_up(m0, t + 52, 0x10_0000_0000_0000) == (mn as nat, ee as int));
        assert(mag == m0 as int * pow2(t as nat));
        lemma_pow2_adds((t + 52 - ee) as nat, ee as nat);
        lemma_pow2_adds(t as nat, 52);
        assert(mag * pow2(52) == mn as int * pow2(ee as nat)) by (nonlinear_arith)
            requires
                mn as int == m0 as int * pow2((t + 52 - ee) as nat),
                pow2((t + 52 - ee) as nat) * pow2(ee as nat) == pow2((t + 52) as nat),
                pow2(t as nat) * pow2(52) == pow2((t + 52) as nat),
                mag == m0 as int * pow2(t as nat),
        ;
        lemma_pow2_adds(1178, 52);
        lemma_pow2_adds(29, 1201);
        lemma2_to64();
        assert((0xff_ffff * pow2(1178) as int) * pow2(52) == 0x1f_ffff_e000_0000 * pow2(1201))
            by (nonlinear_arith)
            requires
                pow2(1178) * pow2(52) == pow2(1230),
                pow2(29) * pow2(1201) == pow2(1230),
                0x2000_0000 == pow2(29),
        ;
        assert(fp32_max_scaled64() * pow2(52) == 0x1f_ffff_e000_0000 * pow2(1201));
        lemma_cmp_norm(mn as nat, ee as nat, 0x1f_ffff_e000_0000, 1201);
        // Comparing in scaled units times 2^52 preserves the order.
        lemma_pow2_pos(52);
        assert((mag > fp32_max_scaled64()) <==> (mag * pow2(52) > fp32_max_scaled64() * pow2(
            52,
        ))) by (nonlinear_arith)
            requires
                pow2(52) > 0,
        ;
    }
    if ee > 1201 || (ee == 1201 && mn > 0x1f_ffff_e000_0000) {
        if neg {
            return Err(RangeError::NegOverflow(src));
        } else {
            return Err(RangeError::PosOverflow(src));
        }
    }
    // In range: round the 53-bit mantissa to 24 bits (normal result) or
    // fewer (subnormal result).
    let s: u32 = if ee >= 948 {
        29
    } else {
        977 - ee
    };
    let (q, r, half) = if s <= 53 {
        let mut p: u64 = 1;
        let mut j: u32 = s;
        proof {
            lemma2_to64();
        }
        while j > 0
            invariant
                j <= s,
                s <= 53,
                p == pow2((s - j) as nat),
            decreases j,
        {
            proof {
                lemma_pow2_unfold((s - j + 1) as nat);
                lemma_pow2_strictly_increases((s - j) as nat, 53);
                lemma2_to64();
                lemma2_to64_rest();
            }
            p = p * 2;
            j = j - 1;
        }
        proof {
            lemma_pow2_pos(s as nat);
            lemma_pow2_unfold(s as nat);
            vstd::arithmetic::div_mod::lemma_div_multiples_vanish(
                pow2((s - 1) as nat) as int,
                2,
            );
            assert(2 * (pow2((s - 1) as nat) as int) == pow2(s as nat));
            vstd::arithmetic::div_mod::lemma_div_nonincreasing(mn as int, p as int);
            if s == 29 {
                crate::fround::lemma_floor_below(mn as int, p as int, 0x80_0000);
                crate::fround::lemma_floor_below(mn as int, p as int, 0x100_0000);
            }
        }
        (mn / p, mn % p, p / 2)
    } else {
        proof {
            lemma_pow2_strictly_increases(53, s as nat);
            if s - 1 > 53 {
                lemma_pow2_strictly_increases(53, (s - 1) as nat);
            }
            lemma_basic_div(mn as int, pow2(s as nat) as int);
            lemma_small_mod(mn as nat, pow2(s as nat));
        }
        (0u64, mn, 0u64)
    };
    proof {
        if s > 53 {
            // The half unit exceeds the whole mantissa, so nothing rounds
            // up; exec carries 0 where the spec compares against 2^(s-1).
            assert(mn < pow2((s - 1) as nat));
        }
    }
    let up = if s <= 53 {
        r > half || (r == half && q % 2 == 1)
    } else {
        false
    };
    let m32 = if up {
        q + 1
    } else {
        q
    };
    if ee >= 948 {
        if m32 == 0x100_0000 {
            Ok(Fp32 { bits: sign | (((ee - 946) as u32) << 23) })
        } else {
            Ok(Fp32 { bits: sign | (((ee - 947) as u32) << 23) | ((m32 - 0x80_0000) as u32) })
        }
    } else {
        Ok(Fp32 { bits: sign | (m32 as u32) })
    }
}

/// Widening preserves not-a-number exactly: the result is not-a-number
/// precisely when the input was.
pub proof fn lemma_widen_nan(src: Fp32)
    ensures
        fp32_to_fp64_spec(src).is_nan_spec() <==> src.is_nan_spec(),
{
    let r = fp32_to_fp64_spec(src);
    let sign: u64 = if src.sign_spec() {
        0x8000_0000_0000_0000u64
    } else {
        0u64
    };
    if src.is_nan_spec() {
        let b = r.bits;
        assert((b >> 52) & 0x7ff == 0x7ff && b & 0xf_ffff_ffff_ffff != 0) by (bit_vector)
            requires
                b == sign | 0x7ff8_0000_0000_0000,
                sign == 0x8000_0000_0000_0000u64 || sign == 0u64,
        ;
    } else if src.is_infinite_spec() {
        let b = r.bits;
        assert((b >> 52) & 0x7ff == 0x7ff && b & 0xf_ffff_ffff_ffff == 0) by (bit_vector)
            requires
                b == sign | 0x7ff0_0000_0000_0000,
                sign == 0x8000_0000_0000_0000u64 || sign == 0u64,
        ;
    } else {
        lemma_widen_value(src);
    }
}

/// Widening a finite value is exact: the result is finite, keeps the sign,
/// and has the same numeric value (the scale factors of the two formats
/// differ by `2^925`).
#[verifier::spinoff_prover]
#[verifier::rlimit(30)]
pub proof fn lemma_widen_value(src: Fp32)
    requires
        !src.is_nan_spec(),
        !src.is_infinite_spec(),
    ensures
        !fp32_to_fp64_spec(src).is_nan_spec(),
        !fp32_to_fp64_spec(src).is_infinite_spec(),
        fp32_to_fp64_spec(src).sign_spec() == src.sign_spec(),
        fp32_to_fp64_spec(src).mag_scaled() == src.mag_scaled() * pow2(925),
{
    let r = fp32_to_fp64_spec(src);
    let sign: u64 = if src.sign_spec() {
        0x8000_0000_0000_0000u64
    } else {
        0u64
    };
    let sbit: u64 = if src.sign_spec() {
        1
    } else {
        0
    };
    lemma2_to64();
    lemma2_to64_rest();
    let sb = src.bits;
    assert((sb >> 23) & 0xff < 256 && sb & 0x7f_ffff < 0x80_0000) by (bit_vector);
    if src.mag_scaled() == 0 {
        let b = r.bits;
        if src.sign_spec() {
            assert(0x8000_0000_0000_0000u64 == (1u64 << 63) | (0u64 << 52) | 0u64)
                by (bit_vector);
        } else {
            assert(0u64 == (0u64 << 63) | (0u64 << 52) | 0u64) by (bit_vector);
        }
        crate::fp_from_int::lemma_fp64_fields(sbit, 0, 0, b);
    } else {
        let m = if src.exp_spec() == 0 {
            src.frac_spec() as nat
        } else {
            (0x80_0000 + src.frac_spec()) as nat
        };
        let t = if src.exp_spec() == 0 {
            0int
        } else {
            src.exp_spec() - 1
        };
        assert(pow2(52) == 0x10_0000_0000_0000) by {
            lemma_pow2_adds(32, 20);
        }
        lemma_pow2_pos(t as nat);
        assert(m >= 1) by {
            if src.exp_spec() == 0 && src.frac_spec() == 0 {
                assert(src.mag_scaled() == 0);
            }
        }
        crate::fp_from_int::lemma_norm_up(m, t + 926, 0x10_0000_0000_0000, 52);
        let (m2, e2) = norm_up(m, t + 926, 0x10_0000_0000_0000);
        // 874 <= e2 <= t + 926 <= 1180, well inside the finite exponents.
        let eu: u64 = e2 as u64;
        let fu: u64 = (m2 - 0x10_0000_0000_0000) as u64;
        if src.sign_spec() {
            assert((0x8000_0000_0000_0000u64 | (eu << 52)) | fu == ((1u64 << 63) | (eu << 52))
                | fu) by (bit_vector);
        } else {
            assert((0u64 | (eu << 52)) | fu == ((0u64 << 63) | (eu << 52)) | fu)
                by (bit_vector);
        }
        crate::fp_from_int::lemma_fp64_fields(sbit, eu, fu, r.bits);
        assert(src.mag_scaled() == m * pow2(t as nat)) by {
            if src.exp_spec() == 0 {
                assert(m * pow2(0) == m) by (nonlinear_arith)
                    requires
                        pow2(0) == 1,
                ;
            }
        }
        assert(r.mag_scaled() == m2 * pow2((e2 - 1) as nat)) by {
            assert(r.exp_spec() == eu);
            assert(r.frac_spec() == fu);
            assert((0x10_0000_0000_0000 + fu) as int == m2 as int);
        }
        // mag_scaled(r) == m2 * 2^(e2 - 1) == m * 2^(t + 926 - e2) * 2^(e2 - 1)
        //              == m * 2^t * 2^925 == mag_scaled(src) * 2^925.
        lemma_pow2_adds((t + 926 - e2) as nat, (e2 - 1) as nat);
        lemma_pow2_adds(t as nat, 925);
        assert(m2 * pow2((e2 - 1) as nat) == (m * pow2(t as nat)) * pow2(925))
            by (nonlinear_arith)
            requires
                m2 == m * pow2((t + 926 - e2) as nat),
                pow2((t + 926 - e2) as nat) * pow2((e2 - 1) as nat) == pow2((t + 925) as nat),
                pow2(t as nat) * pow2(925) == pow2((t + 925) as nat),
        ;
    }
}

/// Narrowing preserves not-a-number exactly: a not-a-number input gives a
/// not-a-number result, and nothing else does... 
pub proof fn lemma_narrow_nan(src: Fp64)
    requires
        src.is_nan_spec(),
    ensures
        fp64_to_fp32_spec(src) is Ok,
        fp64_to_fp32_spec(src)->Ok_0.is_nan_spec(),
{
    let sign: u32 = if src.sign_spec() {
        0x8000_0000u32
    } else {
        0u32
    };
    let b = (fp64_to_fp32_spec(src)->Ok_0).bits;
    assert((b >> 23) & 0xff == 0xff && b & 0x7f_ffff != 0) by (bit_vector)
        requires
            b == sign | 0x7fc0_0000,
            sign == 0x8000_0000u32 || sign == 0u32,
    ;
}

/// Every single-precision value that is not not-a-number survives the
/// round trip through double precision exactly: widening and then
/// narrowing gives back the very same bit pattern.  In particular the
/// nearest-even narrowing is the identity on every value that single
/// precision can represent.
#[verifier::spinoff_prover]
#[verifier::rlimit(60)]
pub proof fn lemma_widen_narrow_round_trip(src: Fp32)
    requires
        !src.is_nan_spec(),
    ensures
        fp64_to_fp32_spec(fp32_to_fp64_spec(src)) == Ok::<Fp32, RangeError<Fp64>>(src),
{
    let r64 = fp32_to_fp64_spec(src);
    let sb = src.bits;
    let neg = src.sign_spec();
    let s32: u32 = if neg {
        1
    } else {
        0
    };
    lemma2_to64();
    lemma2_to64_rest();
    assert((sb >> 23) & 0xff < 256 && sb & 0x7f_ffff < 0x80_0000 && (sb >> 31) <= 1)
        by (bit_vector);
    // Recomposition: the three fields partition the 32 bits.
    assert(sb == ((sb >> 31) << 31) | (((sb >> 23) & 0xff) << 23) | (sb & 0x7f_ffff))
        by (bit_vector);
    let sign64: u64 = if neg {
        0x8000_0000_0000_0000u64
    } else {
        0u64
    };
    let sign32: u32 = if neg {
        0x8000_0000u32
    } else {
        0u32
    };
    assert(sign32 == s32 << 31) by (bit_vector)
        requires
            sign32 == (if s32 == 1 {
                0x8000_0000u32
            } else {
                0u32
            }),
            s32 <= 1,
    ;
    if src.is_infinite_spec() {
        let b64 = r64.bits;
        assert((b64 >> 63) == (if neg {
            1u64
        } else {
            0u64
        }) && (b64 >> 52) & 0x7ff == 0x7ff && b64 & 0xf_ffff_ffff_ffff == 0) by (bit_vector)
            requires
                b64 == (if neg {
                    0x8000_0000_0000_0000u64
                } else {
                    0u64
                }) | 0x7ff0_0000_0000_0000,
        ;
        assert(sign32 | 0x7f80_0000 == (s32 << 31) | (0xffu32 << 23) | 0u32) by (bit_vector)
            requires
                sign32 == s32 << 31,
                s32 <= 1,
        ;
    } else if src.mag_scaled() == 0 {
        if src.exp_spec() != 0 {
            lemma_pow2_pos((src.exp_spec() - 1) as nat);
            assert(src.mag_scaled() > 0) by (nonlinear_arith)
                requires
                    src.mag_scaled() == (0x80_0000 + src.frac_spec()) as int * pow2(
                        (src.exp_spec() - 1) as nat,
                    ),
                    pow2((src.exp_spec() - 1) as nat) > 0,
            ;
        }
        let b64 = r64.bits;
        assert((b64 >> 63) == (if neg {
            1u64
        } else {
            0u64
        }) && (b64 >> 52) & 0x7ff == 0 && b64 & 0xf_ffff_ffff_ffff == 0) by (bit_vector)
            requires
                b64 == (if neg {
                    0x8000_0000_0000_0000u64
                } else {
                    0u64
                }),
        ;
        assert(fp32_max_scaled64() > 0) by {
            lemma_pow2_pos(1178);
        }
        assert(sign32 == (s32 << 31) | (0u32 << 23) | 0u32) by (bit_vector)
            requires
                sign32 == s32 << 31,
                s32 <= 1,
        ;
    } else {
        lemma_widen_value(src);
        let e32 = src.exp_spec();
        let fv = src.frac_spec();
        let m32 = if e32 == 0 {
            fv as nat
        } else {
            (0x80_0000 + fv) as nat
        };
        let t32 = if e32 == 0 {
            0int
        } else {
            e32 - 1
        };
        assert(m32 >= 1) by {
            if e32 == 0 && fv == 0 {
                assert(src.mag_scaled() == 0);
            }
        }
        assert(e32 <= 254) by {
            if e32 == 255 {
                assert(src.is_nan_spec() || src.is_infinite_spec());
            }
        }
        assert(pow2(52) == 0x10_0000_0000_0000) by {
            lemma_pow2_adds(32, 20);
        }
        assert(pow2(23) == 0x80_0000 && pow2(24) == 0x100_0000 && pow2(29) == 0x2000_0000);
        crate::fp_from_int::lemma_norm_up(m32, t32 + 926, 0x10_0000_0000_0000, 52);
        let (m2, e2) = norm_up(m32, t32 + 926, 0x10_0000_0000_0000);
        let kk = (t32 + 926 - e2) as nat;
        // Fields of the widened value.
        let eu: u64 = e2 as u64;
        let fu: u64 = (m2 - 0x10_0000_0000_0000) as u64;
        assert(r64.bits == ((if neg {
            1u64
        } else {
            0u64
        }) << 63) | (eu << 52) | fu) by {
            if neg {
                assert((0x8000_0000_0000_0000u64 | (eu << 52)) | fu == ((1u64 << 63) | (
                eu << 52)) | fu) by (bit_vector);
            } else {
                assert((0u64 | (eu << 52)) | fu == ((0u64 << 63) | (eu << 52)) | fu)
                    by (bit_vector);
            }
        }
        crate::fp_from_int::lemma_fp64_fields(if neg { 1u64 } else { 0u64 }, eu, fu, r64.bits);
        // The narrowing sees mantissa m2 with weight e2 - 1, and its
        // normalization is already done.
        assert(r64.exp_spec() == e2 && r64.frac_spec() == m2 - 0x10_0000_0000_0000);
        assert(r64.mag_scaled() == m2 * pow2((e2 - 1) as nat));
        // The magnitude stays within the single-precision range.
        assert(src.mag_scaled() <= 0xff_ffff * pow2(253)) by {
            if e32 == 0 {
                lemma_pow2_pos(253);
                assert(fv as int <= 0xff_ffff * pow2(253)) by (nonlinear_arith)
                    requires
                        fv < 0x80_0000,
                        pow2(253) >= 1,
                ;
            } else {
                if ((e32 - 1) as nat) < 253 {
                    lemma_pow2_strictly_increases((e32 - 1) as nat, 253);
                }
                lemma_pow2_pos((e32 - 1) as nat);
                lemma_pow2_pos(253);
                assert((0x80_0000 + fv) as int * pow2((e32 - 1) as nat) <= 0xff_ffff * pow2(253))
                    by (nonlinear_arith)
                    requires
                        fv < 0x80_0000,
                        pow2((e32 - 1) as nat) <= pow2(253),
                        pow2((e32 - 1) as nat) > 0,
                        pow2(253) > 0,
                ;
            }
        }
        assert(r64.mag_scaled() <= fp32_max_scaled64()) by {
            lemma_pow2_adds(253, 925);
            assert((0xff_ffff * pow2(253)) * pow2(925) == 0xff_ffff * pow2(1178))
                by (nonlinear_arith)
                requires
                    pow2(253) * pow2(925) == pow2(1178),
            ;
            lemma_pow2_pos(925);
            assert(src.mag_scaled() * pow2(925) <= (0xff_ffff * pow2(253)) * pow2(925))
                by (nonlinear_arith)
                requires
                    src.mag_scaled() <= 0xff_ffff * pow2(253),
                    pow2(925) > 0,
            ;
        }
        assert(r64.mag_scaled() > 0) by {
            lemma_pow2_pos(t32 as nat);
            lemma_pow2_pos(925);
            assert(src.mag_scaled() * pow2(925) > 0) by (nonlinear_arith)
                requires
                    src.mag_scaled() == m32 * pow2(t32 as nat),
                    m32 >= 1,
                    pow2(t32 as nat) > 0,
                    pow2(925) > 0,
            ;
        }
        // Neither bound check fires.
        assert(!(r64.scaled_spec() < -fp32_max_scaled64()) && !(r64.scaled_spec()
            > fp32_max_scaled64()));
        // fp32_round_even(neg, m2, e2 - 1) starts from the already
        // normalized pair (m2, e2 + 51).
        assert(norm_up(m2, (e2 - 1) + 52int, 0x10_0000_0000_0000) == (m2, e2 + 51));
        let ee = e2 + 51;
        if e32 >= 1 {
            // The normalization shift is exactly 29 bits.
            assert(kk == 29) by {
                if kk <= 28 {
                    if kk < 28 {
                        lemma_pow2_strictly_increases(kk, 28);
                    }
                    assert(m2 < 0x10_0000_0000_0000) by (nonlinear_arith)
                        requires
                            m2 == m32 * pow2(kk),
                            m32 < 0x100_0000,
                            pow2(kk) <= pow2(28),
                            pow2(28) == 0x1000_0000,
                            pow2(kk) > 0,
                    ;
                }
                if kk >= 30 {
                    if kk > 30 {
                        lemma_pow2_strictly_increases(30, kk);
                    }
                    assert(m2 >= 0x20_0000_0000_0000) by (nonlinear_arith)
                        requires
                            m2 == m32 * pow2(kk),
                            m32 >= 0x80_0000,
                            pow2(kk) >= pow2(30),
                            pow2(30) == 0x4000_0000,
                    ;
                }
                lemma_pow2_pos(kk);
            }
            assert(ee == t32 + 948);
            // The 29 dropped bits are zero: the mantissa divides back out.
            assert(m2 == m32 * 0x2000_0000);
            assert(m2 as int / pow2(29) as int == m32 as int) by {
                lemma_div_multiples_vanish_local(m32 as int, 0x2000_0000);
            }
            assert(m2 as int % pow2(29) as int == 0) by {
                lemma_mod_multiples_local(m32 as int, 0x2000_0000);
            }
            assert(!round_even_up((m2 as int / pow2(29) as int) as nat, 0nat, pow2(28))) by {
                lemma_pow2_pos(28);
            }
            // The reconstructed fields are the original ones.
            assert((ee - 947) as u32 == e32);
            assert(((m32 - 0x80_0000) as u32) == fv);
            assert(sign32 | ((e32 as u32) << 23) | ((m32 - 0x80_0000) as u32) == sb) by {
                assert(sb == (s32 << 31) | (e32 << 23) | fv);
                assert((sign32 | (e32 << 23)) | fv == ((s32 << 31) | (e32 << 23)) | fv)
                    by (bit_vector)
                    requires
                        sign32 == s32 << 31,
                ;
            }
        } else {
            // Subnormal source: the shift is at least 30 bits, and the
            // narrowing lands back in the subnormal branch.
            assert(kk >= 30) by {
                if kk <= 29 {
                    if kk < 29 {
                        lemma_pow2_strictly_increases(kk, 29);
                    }
                    assert(m2 < 0x10_0000_0000_0000) by (nonlinear_arith)
                        requires
                            m2 == m32 * pow2(kk),
                            m32 < 0x80_0000,
                            pow2(kk) <= pow2(29),
                            pow2(29) == 0x2000_0000,
                            pow2(kk) > 0,
                    ;
                }
                lemma_pow2_pos(kk);
            }
            assert(ee == 977 - kk && ee < 948);
            let p = pow2(kk) as int;
            assert(m2 as int / p == m32 as int) by {
                lemma_pow2_pos(kk);
                lemma_div_multiples_vanish_local(m32 as int, p);
            }
            assert(m2 as int % p == 0) by {
                lemma_pow2_pos(kk);
                lemma_mod_multiples_local(m32 as int, p);
            }
            assert(!round_even_up((m2 as int / p) as nat, 0nat, pow2((kk - 1) as nat))) by {
                lemma_pow2_pos((kk - 1) as nat);
            }
            assert(sign32 | (m32 as u32) == sb) by {
                assert(sb == (s32 << 31) | (0u32 << 23) | fv);
                assert(sign32 | fv == (s32 << 31) | (0u32 << 23) | fv) by (bit_vector)
                    requires
                        sign32 == s32 << 31,
                        fv < 0x80_0000,
                ;
            }
        }
    }
}

/// `(x * d) / d == x` and `(x * d) % d == 0` for positive `d`.
proof fn lemma_div_multiples_vanish_local(x: int, d: int)
    requires
        d > 0,
    ensures
        (x * d) / d == x,
{
    vstd::arithmetic::div_mod::lemma_div_multiples_vanish(x, d);
    assert(d * x == x * d) by (nonlinear_arith);
}

proof fn lemma_mod_multiples_local(x: int, d: int)
    requires
        d > 0,
    ensures
        (x * d) % d == 0,
{
    vstd::arithmetic::div_mod::lemma_mod_multiples_basic(x, d);
}

} // verus!
