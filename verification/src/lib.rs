//! Checked conversions between the primitive numeric types, with explicit
//! success and failure semantics in place of the silent truncation and
//! wrapping of `as`.
//!
//! Every conversion either returns the destination value — exact, or
//! approximated precisely as the selected scheme prescribes — or rejects
//! the input with an error that classifies the failure and carries the
//! input, never a fabricated destination value.  The error type of each
//! conversion is the narrowest that covers the checks it performs: a
//! conversion that cannot fail uses the uninhabited [`NoError`], one that
//! can only overflow in one direction uses [`NegOverflow`] or
//! [`PosOverflow`], and so on up to [`FloatError`], which adds the
//! not-a-number case.
//!
//! The two conversion traits are [`ValueFrom`] (exact, value-preserving)
//! and [`ApproxFrom`] (approximate, under a selectable [`ApproxScheme`]),
//! with their `*Into` duals and the [`ConvUtil`]/[`ConvAsUtil`] call-site
//! helpers.  Each checking strategy is implemented once, generically, in
//! the rule engine ([`engine`], [`fp_to_int`], [`fp_from_int`],
//! [`fp_widen`]), and every trait implementation names its exact outcome
//! in a specification function that the executable method is verified to
//! return.
//!
//! Floating-point values are carried as their bit patterns ([`Fp32`],
//! [`Fp64`]) and modelled exactly as scaled integers, so all rounding and
//! boundary arithmetic — including the [`limits`] table of round-trip-safe
//! boundary constants — is verified integer arithmetic; no floating-point
//! operation is performed anywhere in the crate.

pub mod engine;
pub mod errors;
pub mod fp;
pub mod fp_from_int;
pub mod fp_to_int;
pub mod fp_widen;
pub mod fround;
pub mod impls_float;
pub mod impls_float_int;
pub mod impls_int;
pub mod impls_int_float;
pub mod laws;
pub mod limits;
pub mod misc;
pub mod prelude;
pub mod prim;
pub mod traits;

pub use crate::errors::{
    FloatError, GeneralError, GeneralErrorKind, NegOverflow, NoError, PosOverflow, RangeError,
    RangeErrorKind, Saturate, ToRangeErrorKind, Unrepresentable, UnwrapOk, UnwrapOrInf,
    UnwrapOrInvalid, UnwrapOrSaturate,
};
pub use crate::fp::{Fp32, Fp64};
pub use crate::limits::{
    MAX_F32_I32, MAX_F32_I64, MAX_F32_U32, MAX_F32_U64, MAX_F64_I64, MAX_F64_U64, MIN_F32_I32,
    MIN_F32_I64, MIN_F64_I64,
};
pub use crate::traits::{
    ApproxFrom, ApproxInto, ApproxScheme, ConvAsUtil, ConvUtil, DefaultApprox, RoundToNearest,
    RoundToNegInf, RoundToPosInf, RoundToZero, ValueFrom, ValueInto, Wrapping,
};
