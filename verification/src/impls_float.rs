//! Conversion rules between the two floating-point formats, and the
//! fallback values (saturation bounds, invalid sentinel, signed
//! infinities) of each format.
//!
//! Widening is exact and total, under every scheme.  Narrowing is offered
//! only as an approximation: it rounds to the nearest single-precision
//! value and rejects finite values beyond the single-precision range.

use vstd::prelude::*;

use crate::errors::{NoError, RangeError};
use crate::fp::{Fp32, Fp64};
use crate::fp_widen::{fp32_to_fp64, fp32_to_fp64_spec, fp64_to_fp32, fp64_to_fp32_spec};
use crate::misc::{InvalidSentinel, Saturated, SignedInfinity};
use crate::traits::{ApproxFrom, ApproxScheme, DefaultApprox, ValueFrom};

verus! {

impl ValueFrom<Fp32> for Fp64 {
    type Err = NoError;

    open spec fn value_from_spec(src: Fp32) -> Result<Fp64, NoError> {
        Ok(fp32_to_fp64_spec(src))
    }

    fn value_from(src: Fp32) -> (r: Result<Fp64, NoError>) {
        Ok(fp32_to_fp64(src))
    }
}

impl<Scheme: ApproxScheme> ApproxFrom<Fp32, Scheme> for Fp64 {
    type Err = NoError;

    open spec fn approx_from_spec(src: Fp32) -> Result<Fp64, NoError> {
        Ok(fp32_to_fp64_spec(src))
    }

    fn approx_from(src: Fp32) -> (r: Result<Fp64, NoError>) {
        Ok(fp32_to_fp64(src))
    }
}

impl ApproxFrom<Fp64, DefaultApprox> for Fp32 {
    type Err = RangeError<Fp64>;

    open spec fn approx_from_spec(src: Fp64) -> Result<Fp32, RangeError<Fp64>> {
        fp64_to_fp32_spec(src)
    }

    fn approx_from(src: Fp64) -> (r: Result<Fp32, RangeError<Fp64>>) {
        fp64_to_fp32(src)
    }
}

impl Saturated for Fp32 {
    open spec fn saturated_min_spec() -> Fp32 {
        Fp32 { bits: 0xff7f_ffff }
    }

    open spec fn saturated_max_spec() -> Fp32 {
        Fp32 { bits: 0x7f7f_ffff }
    }

    fn saturated_min() -> (r: Fp32) {
        Fp32 { bits: 0xff7f_ffff }
    }

    fn saturated_max() -> (r: Fp32) {
        Fp32 { bits: 0x7f7f_ffff }
    }
}

impl Saturated for Fp64 {
    open spec fn saturated_min_spec() -> Fp64 {
        Fp64 { bits: 0xffef_ffff_ffff_ffff }
    }

    open spec fn saturated_max_spec() -> Fp64 {
        Fp64 { bits: 0x7fef_ffff_ffff_ffff }
    }

    fn saturated_min() -> (r: Fp64) {
        Fp64 { bits: 0xffef_ffff_ffff_ffff }
    }

    fn saturated_max() -> (r: Fp64) {
        Fp64 { bits: 0x7fef_ffff_ffff_ffff }
    }
}

impl InvalidSentinel for Fp32 {
    open spec fn invalid_sentinel_spec() -> Fp32 {
        Fp32 { bits: 0x7fc0_0000 }
    }

    fn invalid_sentinel() -> (r: Fp32) {
        Fp32 { bits: 0x7fc0_0000 }
    }
}

impl InvalidSentinel for Fp64 {
    open spec fn invalid_sentinel_spec() -> Fp64 {
        Fp64 { bits: 0x7ff8_0000_0000_0000 }
    }

    fn invalid_sentinel() -> (r: Fp64) {
        Fp64 { bits: 0x7ff8_0000_0000_0000 }
    }
}

impl SignedInfinity for Fp32 {
    open spec fn neg_infinity_spec() -> Fp32 {
        Fp32 { bits: 0xff80_0000 }
    }

    open spec fn pos_infinity_spec() -> Fp32 {
        Fp32 { bits: 0x7f80_0000 }
    }

    fn neg_infinity() -> (r: Fp32) {
        Fp32 { bits: 0xff80_0000 }
    }

    fn pos_infinity() -> (r: Fp32) {
        Fp32 { bits: 0x7f80_0000 }
    }
}

impl SignedInfinity for Fp64 {
    open spec fn neg_infinity_spec() -> Fp64 {
        Fp64 { bits: 0xfff0_0000_0000_0000 }
    }

    open spec fn pos_infinity_spec() -> Fp64 {
        Fp64 { bits: 0x7ff0_0000_0000_0000 }
    }

    fn neg_infinity() -> (r: Fp64) {
        Fp64 { bits: 0xfff0_0000_0000_0000 }
    }

    fn pos_infinity() -> (r: Fp64) {
        Fp64 { bits: 0x7ff0_0000_0000_0000 }
    }
}

} // verus!
