//! The rounding core: taking a floating-point value, given as a sign and a
//! magnitude `m * 2^t` in scaled units, to an integer under a chosen
//! rounding mode.
//!
//! Everything here is exact integer arithmetic.  The magnitude of the
//! rounded value either fits in `i128` and is returned precisely, or is so
//! large (at least `2^127`) that it exceeds the range of every primitive
//! integer type, which the verdict records together with its direction.

use vstd::arithmetic::div_mod::{
    lemma_div_multiples_vanish, lemma_div_nonincreasing, lemma_fundamental_div_mod,
    lemma_fundamental_div_mod_converse, lemma_mod_multiples_basic,
};
use vstd::arithmetic::power2::{
    lemma2_to64, lemma2_to64_rest, lemma_pow2_adds, lemma_pow2_pos,
    lemma_pow2_strictly_increases, lemma_pow2_unfold, pow2,
};
use vstd::prelude::*;

verus! {

/// How a value with a fractional part is taken to an integer.
#[derive(Copy, Clone, Debug, Eq, PartialEq)]
pub enum RoundMode {
    /// Toward zero.
    Trunc,
    /// Toward negative infinity.
    Floor,
    /// Toward positive infinity.
    Ceil,
    /// To the nearest integer, ties away from zero.
    HalfAway,
}

/// `mag` with the sign `neg` applied.
pub open spec fn signed_mag(neg: bool, mag: int) -> int {
    if neg {
        -mag
    } else {
        mag
    }
}

/// The rounding of the value `scaled / u` to an integer under the given
/// mode, for an even, positive scale unit `u`.
pub open spec fn spec_round(mode: RoundMode, scaled: int, u: int) -> int {
    match mode {
        RoundMode::Floor => scaled / u,
        RoundMode::Ceil => -((-scaled) / u),
        RoundMode::Trunc => if scaled >= 0 {
            scaled / u
        } else {
            -((-scaled) / u)
        },
        RoundMode::HalfAway => if scaled >= 0 {
            (scaled + u / 2) / u
        } else {
            -(((-scaled) + u / 2) / u)
        },
    }
}

/// The verdict of the rounding core.
pub enum Rounded {
    /// The rounded value, exactly.
    Val(i128),
    /// The rounded value is at most `-2^127`.
    HugeNeg,
    /// The rounded value is at least `2^127`.
    HugePos,
}

/// What the rounding core promises: an exact value, or a direction with
/// the guarantee that the value lies beyond `±2^127`.
pub open spec fn round_ok(out: Rounded, mode: RoundMode, scaled: int, u: int) -> bool {
    match out {
        Rounded::Val(v) => v == spec_round(mode, scaled, u),
        Rounded::HugeNeg => spec_round(mode, scaled, u) <= -pow2(127),
        Rounded::HugePos => spec_round(mode, scaled, u) >= pow2(127),
    }
}

/// For `0 <= r < u`, the (Euclidean) quotient of `k*u + r` by `u` is `k`.
proof fn lemma_quot(k: int, u: int, r: int)
    requires
        u > 0,
        0 <= r < u,
    ensures
        (k * u + r) / u == k,
{
    lemma_fundamental_div_mod_converse(k * u + r, u, k, r);
}

/// Rounding an exact multiple of the unit gives that multiple, whatever
/// the mode.
proof fn lemma_round_exact(mode: RoundMode, neg: bool, k: int, u: int)
    requires
        u > 0,
        u % 2 == 0,
        k >= 0,
    ensures
        spec_round(mode, signed_mag(neg, k * u), u) == signed_mag(neg, k),
{
    lemma_quot(k, u, 0);
    lemma_quot(-k, u, 0);
    assert(-(k * u) == (-k) * u + 0) by (nonlinear_arith);
    lemma_quot(k, u, u / 2);
    lemma_quot(-k, u, u / 2);
    assert(-(k * u) + u / 2 == (-k) * u + u / 2) by (nonlinear_arith);
}

/// Rounding a magnitude decomposed as `q * 2^s2 + r`, scaled by a further
/// `2^t`, reduces to `q` or `q + 1` according to the mode, the sign, and
/// the position of the remainder relative to the half unit.
proof fn lemma_round_decomp(mode: RoundMode, neg: bool, q: int, r: int, s2: nat, t: nat)
    requires
        s2 >= 1,
        0 <= q,
        0 <= r < pow2(s2),
    ensures
        spec_round(
            mode,
            signed_mag(neg, (q * pow2(s2) + r) * pow2(t)),
            pow2(s2) * pow2(t) as int,
        ) == signed_mag(
            neg,
            match mode {
                RoundMode::Trunc => q,
                RoundMode::Floor => if neg && r != 0 {
                    q + 1
                } else {
                    q
                },
                RoundMode::Ceil => if !neg && r != 0 {
                    q + 1
                } else {
                    q
                },
                RoundMode::HalfAway => if r >= pow2((s2 - 1) as nat) {
                    q + 1
                } else {
                    q
                },
            },
        ),
{
    let p = pow2(s2) as int;
    let w = pow2((s2 - 1) as nat) as int;
    let pt = pow2(t) as int;
    let u = p * pt;
    let h = w * pt;
    lemma_pow2_pos(s2);
    lemma_pow2_pos((s2 - 1) as nat);
    lemma_pow2_pos(t);
    lemma_pow2_unfold(s2);
    assert(p == 2 * w);
    let r2 = r * pt;
    let mag = (q * p + r) * pt;
    assert(mag == q * u + r2) by (nonlinear_arith)
        requires
            u == p * pt,
            r2 == r * pt,
            mag == (q * p + r) * pt,
    ;
    assert(0 <= r2 && r2 < u && u == 2 * h && (r < w <==> r2 < h) && (r == 0 <==> r2 == 0))
        by (nonlinear_arith)
        requires
            0 <= r < p,
            pt > 0,
            p == 2 * w,
            w > 0,
            r2 == r * pt,
            u == p * pt,
            h == w * pt,
    ;
    assert(u % 2 == 0) by {
        lemma_mod_multiples_basic(h, 2);
        assert(h * 2 == u);
    }
    assert(u / 2 == h) by {
        lemma_div_multiples_vanish(h, 2);
        assert(2 * h == u);
    }
    // Quotients of the four relevant decompositions.
    lemma_quot(q, u, r2);
    if r2 != 0 {
        assert(-(q * u + r2) == (-q - 1) * u + (u - r2)) by (nonlinear_arith);
        lemma_quot(-q - 1, u, u - r2);
    } else {
        assert(-(q * u + 0) == (-q) * u + 0) by (nonlinear_arith);
        lemma_quot(-q, u, 0);
    }
    if r2 < h {
        lemma_quot(q, u, r2 + h);
    } else {
        assert(q * u + r2 + h == (q + 1) * u + (r2 + h - u)) by (nonlinear_arith);
        lemma_quot(q + 1, u, r2 + h - u);
    }
    if neg {
        assert(-(signed_mag(true, mag)) == q * u + r2);
    }
}

/// Rounds a value that is an exact integer: magnitude `m * 2^k` units.
fn round_intpart(neg: bool, m: u64, k: u32, s: u32, mode: RoundMode) -> (out: Rounded)
    requires
        m < 0x40_0000_0000_0000u64,
        k <= 2046,
        100 <= s <= 1074,
    ensures
        round_ok(
            out,
            mode,
            signed_mag(neg, m as int * pow2((k + s) as nat)),
            pow2(s as nat) as int,
        ),
{
    let mut acc: i128 = m as i128;
    let mut i: u32 = k;
    proof {
        lemma2_to64();
        assert(m as int * pow2((k - k) as nat) == m as int);
    }
    while i > 0
        invariant
            i <= k,
            0 <= acc,
            acc == m as int * pow2((k - i) as nat),
            m < 0x40_0000_0000_0000u64,
            k <= 2046,
            100 <= s <= 1074,
        decreases i,
    {
        if acc >= 0x4000_0000_0000_0000_0000_0000_0000_0000i128 {
            // At least one doubling remains, so the integer value is at
            // least 2^126 * 2 = 2^127 in magnitude.
            proof {
                lemma_huge_exit(neg, m as int, k as nat, s as nat, i as nat, acc as int, mode);
            }
            if neg {
                return Rounded::HugeNeg;
            } else {
                return Rounded::HugePos;
            }
        }
        proof {
            lemma_pow2_unfold((k - i + 1) as nat);
            assert(m as int * pow2((k - i + 1) as nat) == 2 * acc) by (nonlinear_arith)
                requires
                    acc == m as int * pow2((k - i) as nat),
                    pow2((k - i + 1) as nat) == 2 * pow2((k - i) as nat),
            ;
        }
        acc = acc * 2;
        i = i - 1;
    }
    proof {
        lemma_unit_even(s as nat);
        lemma_round_exact(mode, neg, acc as int, pow2(s as nat) as int);
        lemma_pow2_adds(k as nat, s as nat);
        assert((acc as int) * (pow2(s as nat) as int) == m as int * pow2((k + s) as nat))
            by (nonlinear_arith)
            requires
                acc == m as int * pow2(k as nat),
                pow2(k as nat) * pow2(s as nat) == pow2((k + s) as nat),
        ;
    }
    if neg {
        Rounded::Val(-acc)
    } else {
        Rounded::Val(acc)
    }
}

/// The scale unit `2^s` is positive and even.
proof fn lemma_unit_even(s: nat)
    requires
        s >= 1,
    ensures
        pow2(s) > 0,
        pow2(s) % 2 == 0int,
{
    lemma_pow2_pos(s);
    lemma_pow2_unfold(s);
    lemma_mod_multiples_basic(pow2((s - 1) as nat) as int, 2);
    assert(pow2((s - 1) as nat) * 2 == pow2(s));
}

/// What holds on the early exit of the doubling loop: the integer value is
/// at least `2^127` in magnitude.
proof fn lemma_huge_exit(neg: bool, m: int, k: nat, s: nat, i: nat, acc: int, mode: RoundMode)
    requires
        0 < i <= k,
        acc == m * pow2((k - i) as nat),
        acc >= 0x4000_0000_0000_0000_0000_0000_0000_0000,
        s >= 100,
    ensures
        neg ==> spec_round(mode, signed_mag(neg, m * pow2((k + s) as nat)), pow2(s) as int)
            <= -pow2(127),
        !neg ==> spec_round(mode, signed_mag(neg, m * pow2((k + s) as nat)), pow2(s) as int)
            >= pow2(127),
{
    lemma_unit_even(s);
    lemma_pow2_pos((k - i) as nat);
    lemma_pow2_pos(i);
    lemma_pow2_adds((k - i) as nat, i);
    if i == 1 {
        lemma2_to64();
    } else {
        lemma_pow2_strictly_increases(1, i);
        lemma2_to64();
    }
    assert(pow2(126) == 0x4000_0000_0000_0000_0000_0000_0000_0000) by {
        lemma_pow2_adds(64, 62);
        lemma2_to64();
        lemma2_to64_rest();
    }
    assert(pow2(127) == 2 * pow2(126)) by {
        lemma_pow2_unfold(127);
    }
    assert(m * pow2(k) >= 2 * pow2(126)) by (nonlinear_arith)
        requires
            acc == m * pow2((k - i) as nat),
            pow2((k - i) as nat) * pow2(i) == pow2(k),
            acc >= pow2(126),
            pow2(i) >= 2,
    ;
    assert(m >= 0) by (nonlinear_arith)
        requires
            acc == m * pow2((k - i) as nat),
            acc >= 0,
            pow2((k - i) as nat) > 0,
    ;
    lemma_round_exact(mode, neg, m * pow2(k), pow2(s) as int);
    lemma_pow2_adds(k, s);
    assert(m * pow2((k + s) as nat) == (m * pow2(k)) * pow2(s)) by (nonlinear_arith)
        requires
            pow2(k) * pow2(s) == pow2((k + s) as nat),
    ;
}

/// Rounds a value whose unit exceeds its power-of-two factor: magnitude
/// `m * 2^t` units with a unit of `2^(t + s2)`, `s2 >= 1`.
fn round_fracpart(neg: bool, m: u64, t: u32, s2: u32, mode: RoundMode) -> (out: Rounded)
    requires
        m < 0x40_0000_0000_0000u64,
        t <= 2046,
        1 <= s2 <= 1074,
    ensures
        round_ok(
            out,
            mode,
            signed_mag(neg, m as int * pow2(t as nat)),
            pow2((t + s2) as nat) as int,
        ),
{
    proof {
        lemma_pow2_adds(s2 as nat, t as nat);
    }
    if s2 >= 55 {
        // The magnitude is below one half: only the direction of a nonzero
        // remainder matters.
        proof {
            lemma2_to64();
            lemma2_to64_rest();
            lemma_pow2_strictly_increases(54, s2 as nat);
            if s2 > 55 {
                lemma_pow2_strictly_increases(54, (s2 - 1) as nat);
            }
            assert(m < pow2((s2 - 1) as nat));
            lemma_round_decomp(mode, neg, 0, m as int, s2 as nat, t as nat);
        }
        let mag: i128 = match mode {
            RoundMode::Trunc => 0,
            RoundMode::Floor => if neg && m != 0 {
                1
            } else {
                0
            },
            RoundMode::Ceil => if !neg && m != 0 {
                1
            } else {
                0
            },
            RoundMode::HalfAway => 0,
        };
        if neg {
            Rounded::Val(-mag)
        } else {
            Rounded::Val(mag)
        }
    } else {
        // Split the magnitude at the unit: m = q * 2^s2 + r.
        let mut p: u64 = 1;
        let mut j: u32 = s2;
        proof {
            lemma2_to64();
        }
        while j > 0
            invariant
                j <= s2,
                s2 <= 54,
                p == pow2((s2 - j) as nat),
            decreases j,
        {
            proof {
                lemma_pow2_unfold((s2 - j + 1) as nat);
                lemma_pow2_strictly_increases((s2 - j) as nat, 54);
                lemma2_to64();
                lemma2_to64_rest();
            }
            p = p * 2;
            j = j - 1;
        }
        proof {
            lemma_pow2_pos(s2 as nat);
        }
        let q = m / p;
        let r = m % p;
        let half = p / 2;
        proof {
            lemma_fundamental_div_mod(m as int, p as int);
            lemma_div_nonincreasing(m as int, p as int);
            lemma_pow2_unfold(s2 as nat);
            lemma_div_multiples_vanish(pow2((s2 - 1) as nat) as int, 2);
            assert(2 * (pow2((s2 - 1) as nat) as int) == pow2(s2 as nat));
            lemma_round_decomp(mode, neg, q as int, r as int, s2 as nat, t as nat);
        }
        let mag: u64 = match mode {
            RoundMode::Trunc => q,
            RoundMode::Floor => if neg && r != 0 {
                q + 1
            } else {
                q
            },
            RoundMode::Ceil => if !neg && r != 0 {
                q + 1
            } else {
                q
            },
            RoundMode::HalfAway => if r >= half {
                q + 1
            } else {
                q
            },
        };
        if neg {
            Rounded::Val(-(mag as i128))
        } else {
            Rounded::Val(mag as i128)
        }
    }
}

/// Rounds the value `signed_mag(neg, m * 2^t) / 2^s` to an integer under
/// the given mode.
pub fn round_scaled(neg: bool, m: u64, t: u32, s: u32, mode: RoundMode) -> (out: Rounded)
    requires
        m < 0x40_0000_0000_0000u64,
        t <= 2046,
        100 <= s <= 1074,
    ensures
        round_ok(out, mode, signed_mag(neg, m as int * pow2(t as nat)), pow2(s as nat) as int),
{
    if t >= s {
        round_intpart(neg, m, t - s, s, mode)
    } else {
        round_fracpart(neg, m, t, s - t, mode)
    }
}

/// `pow2(127)` as a literal.
pub proof fn lemma_pow2_127()
    ensures
        pow2(127) == 0x8000_0000_0000_0000_0000_0000_0000_0000,
{
    lemma_pow2_adds(64, 63);
    lemma2_to64();
    lemma2_to64_rest();
}

/// A raw value is below an integer bound exactly when its floor is.
pub proof fn lemma_floor_below(scaled: int, u: int, c: int)
    requires
        u > 0,
    ensures
        scaled < c * u <==> spec_round(RoundMode::Floor, scaled, u) < c,
{
    lemma_fundamental_div_mod(scaled, u);
    let q = scaled / u;
    let r = scaled % u;
    assert((scaled < c * u) <==> (q < c)) by (nonlinear_arith)
        requires
            scaled == u * q + r,
            u > 0,
            0 <= r < u,
    ;
}

/// A raw value is above an integer bound exactly when its ceiling is.
pub proof fn lemma_ceil_above(scaled: int, u: int, c: int)
    requires
        u > 0,
    ensures
        scaled > c * u <==> spec_round(RoundMode::Ceil, scaled, u) > c,
{
    lemma_floor_below(-scaled, u, -c);
    assert((-c) * u == -(c * u)) by (nonlinear_arith);
}

/// Truncation lies between floor and ceiling, which differ by at most one.
pub proof fn lemma_floor_trunc_ceil(scaled: int, u: int)
    requires
        u > 0,
    ensures
        spec_round(RoundMode::Floor, scaled, u) <= spec_round(RoundMode::Trunc, scaled, u),
        spec_round(RoundMode::Trunc, scaled, u) <= spec_round(RoundMode::Ceil, scaled, u),
        spec_round(RoundMode::Ceil, scaled, u) <= spec_round(RoundMode::Floor, scaled, u) + 1,
        scaled >= 0 ==> spec_round(RoundMode::Trunc, scaled, u) >= 0,
        scaled <= 0 ==> spec_round(RoundMode::Trunc, scaled, u) <= 0,
{
    lemma_fundamental_div_mod(scaled, u);
    let q = scaled / u;
    let r = scaled % u;
    if r != 0 {
        assert(-scaled == (-q - 1) * u + (u - r)) by (nonlinear_arith)
            requires
                scaled == u * q + r,
        ;
        lemma_quot(-q - 1, u, u - r);
    } else {
        assert(-scaled == (-q) * u + 0) by (nonlinear_arith)
            requires
                scaled == u * q + r,
                r == 0,
        ;
        lemma_quot(-q, u, 0);
    }
    assert((scaled >= 0 ==> q >= 0) && (scaled <= 0 ==> q <= 0)) by (nonlinear_arith)
        requires
            scaled == u * q + r,
            u > 0,
            0 <= r < u,
    ;
}

} // verus!
