//! The crate's model of the two floating-point formats.
//!
//! A floating-point value is carried as its bit pattern ([`Fp32`],
//! [`Fp64`]), and its numeric value is modelled exactly: `scaled()` gives
//! the value multiplied by `2^scale_log()` (`2^149` for single precision,
//! `2^1074` for double), which is an integer for every finite value of the
//! format.  All comparisons, roundings and range checks in the conversion
//! rules are stated — and verified — over this integer model; no
//! floating-point arithmetic is involved anywhere.
//!
//! An infinity is mapped beyond every finite value of the format (its
//! ordinary place in the ordering), so it participates in range checks
//! normally and simply fails them all.  Not-a-number is excluded from the
//! value model and is handled, always first, by the conversion rules
//! themselves.

use vstd::arithmetic::power2::pow2;
use vstd::prelude::*;

verus! {

/// An IEEE 754 single-precision value, carried as its bit pattern.
#[derive(Copy, Clone, Debug, Eq, PartialEq)]
pub struct Fp32 {
    /// The raw bits: sign, 8 exponent bits, 23 fraction bits.
    pub bits: u32,
}

/// An IEEE 754 double-precision value, carried as its bit pattern.
#[derive(Copy, Clone, Debug, Eq, PartialEq)]
pub struct Fp64 {
    /// The raw bits: sign, 11 exponent bits, 52 fraction bits.
    pub bits: u64,
}

/// A floating-point format, described by the exact integer model of its
/// values: `scaled()` is the value times `2^scale_log()`.
pub trait PrimFloat: Copy + Sized {
    /// The power of two by which `scaled` magnifies the format's values.
    spec fn scale_log() -> nat;

    /// Whether the value is not-a-number.
    spec fn is_nan(self) -> bool;

    /// The value times `2^scale_log()`, an integer for every value of the
    /// format that is not not-a-number; an infinity maps beyond every
    /// finite value of the format.
    spec fn scaled(self) -> int;

    /// The scale exponent fits comfortably below the working precision of
    /// the rounding core.
    proof fn lemma_scale()
        ensures
            100 <= Self::scale_log() <= 1074,
    ;

    /// Returns the scale exponent.
    fn scale_log_ex() -> (s: u32)
        ensures
            s == Self::scale_log(),
    ;

    /// Whether the value is not-a-number.
    fn nan_check(self) -> (b: bool)
        ensures
            b == self.is_nan(),
    ;

    /// Decomposes a value that is not not-a-number into a sign and a
    /// magnitude of the form `m * 2^t`, in scaled units.
    fn decode(self) -> (d: (bool, u64, u32))
        requires
            !self.is_nan(),
        ensures
            d.1 < 0x40_0000_0000_0000u64,
            d.2 <= 2046,
            self.scaled() == if d.0 {
                -(d.1 as int * pow2(d.2 as nat))
            } else {
                d.1 as int * pow2(d.2 as nat)
            },
    ;
}

impl Fp32 {
    /// The value with the given bit pattern.
    pub fn from_bits(bits: u32) -> (r: Fp32)
        ensures
            r.bits == bits,
    {
        Fp32 { bits }
    }

    /// The bit pattern of the value.
    pub fn to_bits(self) -> (r: u32)
        ensures
            r == self.bits,
    {
        self.bits
    }

    /// Whether the sign bit is set.
    pub open spec fn sign_spec(self) -> bool {
        self.bits >> 31 == 1u32
    }

    /// The biased exponent field.
    pub open spec fn exp_spec(self) -> u32 {
        (self.bits >> 23) & 0xff
    }

    /// The fraction field.
    pub open spec fn frac_spec(self) -> u32 {
        self.bits & 0x7f_ffff
    }

    /// Whether the value is not-a-number: exponent all ones, fraction
    /// nonzero.
    pub open spec fn is_nan_spec(self) -> bool {
        self.exp_spec() == 0xff && self.frac_spec() != 0
    }

    /// Whether the value is an infinity: exponent all ones, fraction zero.
    pub open spec fn is_infinite_spec(self) -> bool {
        self.exp_spec() == 0xff && self.frac_spec() == 0
    }

    /// The magnitude times `2^149`, with an infinity mapped beyond every
    /// finite magnitude of the format.
    pub open spec fn mag_scaled(self) -> int {
        if self.exp_spec() == 0 {
            self.frac_spec() as int
        } else {
            (0x80_0000 + self.frac_spec()) as int * pow2((self.exp_spec() - 1) as nat)
        }
    }

    /// The signed value times `2^149`.
    pub open spec fn scaled_spec(self) -> int {
        if self.sign_spec() {
            -self.mag_scaled()
        } else {
            self.mag_scaled()
        }
    }

    /// Whether the value is not-a-number.
    pub fn is_nan(self) -> (b: bool)
        ensures
            b == self.is_nan_spec(),
    {
        let e = (self.bits >> 23) & 0xff;
        let f = self.bits & 0x7f_ffff;
        e == 0xff && f != 0
    }

    /// Whether the value is an infinity.
    pub fn is_infinite(self) -> (b: bool)
        ensures
            b == self.is_infinite_spec(),
    {
        let e = (self.bits >> 23) & 0xff;
        let f = self.bits & 0x7f_ffff;
        e == 0xff && f == 0
    }
}

impl PrimFloat for Fp32 {
    open spec fn scale_log() -> nat {
        149
    }

    open spec fn is_nan(self) -> bool {
        self.is_nan_spec()
    }

    open spec fn scaled(self) -> int {
        self.scaled_spec()
    }

    proof fn lemma_scale() {
    }

    fn scale_log_ex() -> (s: u32) {
        149
    }

    fn nan_check(self) -> (b: bool) {
        self.is_nan()
    }

    fn decode(self) -> (d: (bool, u64, u32)) {
        let b = self.bits;
        let neg = (b >> 31) == 1;
        let e = (b >> 23) & 0xff;
        let f = b & 0x7f_ffff;
        proof {
            assert((b >> 23) & 0xff < 256 && b & 0x7f_ffff < 0x80_0000) by (bit_vector);
            vstd::arithmetic::power2::lemma2_to64();
        }
        if e == 0 {
            proof {
                assert(self.mag_scaled() == f as int * pow2(0));
            }
            (neg, f as u64, 0)
        } else {
            proof {
                assert(self.mag_scaled() == (0x80_0000 + f) as int * pow2((e - 1) as nat));
            }
            (neg, (0x80_0000 + f) as u64, e - 1)
        }
    }
}

impl Fp64 {
    /// The value with the given bit pattern.
    pub fn from_bits(bits: u64) -> (r: Fp64)
        ensures
            r.bits == bits,
    {
        Fp64 { bits }
    }

    /// The bit pattern of the value.
    pub fn to_bits(self) -> (r: u64)
        ensures
            r == self.bits,
    {
        self.bits
    }

    /// Whether the sign bit is set.
    pub open spec fn sign_spec(self) -> bool {
        self.bits >> 63 == 1u64
    }

    /// The biased exponent field.
    pub open spec fn exp_spec(self) -> u64 {
        (self.bits >> 52) & 0x7ff
    }

    /// The fraction field.
    pub open spec fn frac_spec(self) -> u64 {
        self.bits & 0xf_ffff_ffff_ffff
    }

    /// Whether the value is not-a-number: exponent all ones, fraction
    /// nonzero.
    pub open spec fn is_nan_spec(self) -> bool {
        self.exp_spec() == 0x7ff && self.frac_spec() != 0
    }

    /// Whether the value is an infinity: exponent all ones, fraction zero.
    pub open spec fn is_infinite_spec(self) -> bool {
        self.exp_spec() == 0x7ff && self.frac_spec() == 0
    }

    /// The magnitude times `2^1074`, with an infinity mapped beyond every
    /// finite magnitude of the format.
    pub open spec fn mag_scaled(self) -> int {
        if self.exp_spec() == 0 {
            self.frac_spec() as int
        } else {
            (0x10_0000_0000_0000 + self.frac_spec()) as int * pow2((self.exp_spec() - 1) as nat)
        }
    }

    /// The signed value times `2^1074`.
    pub open spec fn scaled_spec(self) -> int {
        if self.sign_spec() {
            -self.mag_scaled()
        } else {
            self.mag_scaled()
        }
    }

    /// Whether the value is not-a-number.
    pub fn is_nan(self) -> (b: bool)
        ensures
            b == self.is_nan_spec(),
    {
        let e = (self.bits >> 52) & 0x7ff;
        let f = self.bits & 0xf_ffff_ffff_ffff;
        e == 0x7ff && f != 0
    }

    /// Whether the value is an infinity.
    pub fn is_infinite(self) -> (b: bool)
        ensures
            b == self.is_infinite_spec(),
    {
        let e = (self.bits >> 52) & 0x7ff;
        let f = self.bits & 0xf_ffff_ffff_ffff;
        e == 0x7ff && f == 0
    }
}

impl PrimFloat for Fp64 {
    open spec fn scale_log() -> nat {
        1074
    }

    open spec fn is_nan(self) -> bool {
        self.is_nan_spec()
    }

    open spec fn scaled(self) -> int {
        self.scaled_spec()
    }

    proof fn lemma_scale() {
    }

    fn scale_log_ex() -> (s: u32) {
        1074
    }

    fn nan_check(self) -> (b: bool) {
        self.is_nan()
    }

    fn decode(self) -> (d: (bool, u64, u32)) {
        let b = self.bits;
        let neg = (b >> 63) == 1;
        let e = (b >> 52) & 0x7ff;
        let f = b & 0xf_ffff_ffff_ffff;
        proof {
            assert((b >> 52) & 0x7ff < 0x800 && b & 0xf_ffff_ffff_ffff < 0x10_0000_0000_0000)
                by (bit_vector);
            vstd::arithmetic::power2::lemma2_to64();
        }
        if e == 0 {
            proof {
                assert(self.mag_scaled() == f as int * pow2(0));
            }
            (neg, f, 0)
        } else {
            proof {
                assert(self.mag_scaled() == (0x10_0000_0000_0000 + f) as int * pow2(
                    (e - 1) as nat,
                ));
            }
            (neg, 0x10_0000_0000_0000 + f, (e - 1) as u32)
        }
    }
}

} // verus!
