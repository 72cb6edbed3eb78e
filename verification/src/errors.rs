//! The vocabulary of conversion failure.
//!
//! Every fallible conversion in this crate reports its failure through the
//! narrowest type below that can describe it: a conversion that can only
//! overflow in one direction uses [`NegOverflow`] or [`PosOverflow`], one
//! that can overflow in either direction uses [`RangeError`], and a
//! conversion from a floating-point source uses [`FloatError`], which adds
//! the not-a-number case.  A conversion that cannot fail at all uses
//! [`NoError`], which has no values.
//!
//! Each narrower kind widens losslessly into every broader kind that can
//! represent it, and every kind can drop its payload into the corresponding
//! "kind-only" form ([`RangeErrorKind`], [`GeneralErrorKind`]).

use vstd::prelude::*;

use crate::misc::{InvalidSentinel, Saturated, SignedInfinity};

verus! {

/// Indicates that it is not possible for the conversion to fail.
///
/// This type cannot be constructed: its only variant carries a value of
/// `core::convert::Infallible`, of which there are none.  A
/// `Result<T, NoError>` therefore always holds an `Ok`, and
/// [`UnwrapOk::unwrap_ok`] discards the dead `Err` case without a runtime
/// check.
#[derive(Copy, Clone, Debug, Eq, PartialEq, Ord, PartialOrd)]
pub enum NoError {
    /// Uninhabited: no value of this variant can ever exist.
    Never(core::convert::Infallible),
}

/// Indicates that the conversion failed because the value was not
/// representable in the destination type.
#[derive(Copy, Clone, Debug, Eq, PartialEq, Ord, PartialOrd)]
pub struct Unrepresentable<T>(pub T);

/// Indicates that the conversion failed due to a negative overflow: the
/// input was below the destination type's minimum.  Carries the rejected
/// input.
#[derive(Copy, Clone, Debug, Eq, PartialEq, Ord, PartialOrd)]
pub struct NegOverflow<T>(pub T);

/// Indicates that the conversion failed due to a positive overflow: the
/// input was above the destination type's maximum.  Carries the rejected
/// input.
#[derive(Copy, Clone, Debug, Eq, PartialEq, Ord, PartialOrd)]
pub struct PosOverflow<T>(pub T);

/// Indicates that a conversion failed due to a range error in either
/// direction.  Carries the rejected input.
#[derive(Copy, Clone, Debug, Eq, PartialEq, Ord, PartialOrd)]
pub enum RangeError<T> {
    /// Input was too negative for the destination type.
    NegOverflow(T),
    /// Input was too positive for the destination type.
    PosOverflow(T),
}

/// Indicates that a conversion from a floating-point source failed.
/// Carries the rejected input.
#[derive(Copy, Clone, Debug, Eq, PartialEq, Ord, PartialOrd)]
pub enum FloatError<T> {
    /// Input was too negative for the destination type.
    NegOverflow(T),
    /// Input was too positive for the destination type.
    PosOverflow(T),
    /// Input was not-a-number, which the destination could not represent.
    NotANumber(T),
}

/// A general error enumeration that subsumes all other conversion errors.
#[derive(Copy, Clone, Debug, Eq, PartialEq, Ord, PartialOrd)]
pub enum GeneralError<T> {
    /// Input was too negative for the destination type.
    NegOverflow(T),
    /// Input was too positive for the destination type.
    PosOverflow(T),
    /// Input was not representable in the destination type.
    Unrepresentable(T),
}

/// [`RangeError`] without the input payload.
#[derive(Copy, Clone, Debug, Eq, PartialEq, Ord, PartialOrd)]
pub enum RangeErrorKind {
    /// Input was too negative for the destination type.
    NegOverflow,
    /// Input was too positive for the destination type.
    PosOverflow,
}

/// [`GeneralError`] without the input payload.
#[derive(Copy, Clone, Debug, Eq, PartialEq, Ord, PartialOrd)]
pub enum GeneralErrorKind {
    /// Input was too negative for the destination type.
    NegOverflow,
    /// Input was too positive for the destination type.
    PosOverflow,
    /// Input was not representable in the destination type.
    Unrepresentable,
}

impl<T> GeneralError<T> {
    /// The value stored in this error, whichever variant holds it.
    pub open spec fn inner_spec(self) -> T {
        match self {
            GeneralError::NegOverflow(v) => v,
            GeneralError::PosOverflow(v) => v,
            GeneralError::Unrepresentable(v) => v,
        }
    }

    /// Returns the value stored in this error.
    pub fn into_inner(self) -> (v: T)
        ensures
            v == self.inner_spec(),
    {
        match self {
            GeneralError::NegOverflow(v) => v,
            GeneralError::PosOverflow(v) => v,
            GeneralError::Unrepresentable(v) => v,
        }
    }
}

impl<T> FloatError<T> {
    /// The value stored in this error, whichever variant holds it.
    pub open spec fn inner_spec(self) -> T {
        match self {
            FloatError::NegOverflow(v) => v,
            FloatError::PosOverflow(v) => v,
            FloatError::NotANumber(v) => v,
        }
    }

    /// Returns the value stored in this error.
    pub fn into_inner(self) -> (v: T)
        ensures
            v == self.inner_spec(),
    {
        match self {
            FloatError::NegOverflow(v) => v,
            FloatError::PosOverflow(v) => v,
            FloatError::NotANumber(v) => v,
        }
    }
}

/// Relies on `core::convert::Infallible` having no values: a call of this
/// function can never execute, so it promises nothing about its result.
#[verifier::external_body]
fn never_value<T>(never: core::convert::Infallible) -> T {
    match never {}
}

// ---------------------------------------------------------------------
// Widening between error kinds.
//
// Every narrower kind converts losslessly into every broader kind that can
// represent it; the payload, where both sides carry one, moves unchanged.
// Widening out of `NoError` is a dead code path: no value of `NoError`
// exists, so those conversions can never run, and their contracts claim
// nothing.
// ---------------------------------------------------------------------

impl<T> From<Unrepresentable<T>> for GeneralError<T> {
    fn from(e: Unrepresentable<T>) -> (r: Self) {
        match e {
            Unrepresentable(v) => GeneralError::Unrepresentable(v),
        }
    }
}

impl<T> vstd::std_specs::convert::FromSpecImpl<Unrepresentable<T>> for GeneralError<T> {
    open spec fn obeys_from_spec() -> bool {
        true
    }

    open spec fn from_spec(e: Unrepresentable<T>) -> Self {
        match e {
            Unrepresentable(v) => GeneralError::Unrepresentable(v),
        }
    }
}

impl<T> From<Unrepresentable<T>> for GeneralErrorKind {
    fn from(e: Unrepresentable<T>) -> (r: Self) {
        match e {
            Unrepresentable(_) => GeneralErrorKind::Unrepresentable,
        }
    }
}

impl<T> vstd::std_specs::convert::FromSpecImpl<Unrepresentable<T>> for GeneralErrorKind {
    open spec fn obeys_from_spec() -> bool {
        true
    }

    open spec fn from_spec(e: Unrepresentable<T>) -> Self {
        match e {
            Unrepresentable(_) => GeneralErrorKind::Unrepresentable,
        }
    }
}

impl<T> From<NegOverflow<T>> for RangeError<T> {
    fn from(e: NegOverflow<T>) -> (r: Self) {
        match e {
            NegOverflow(v) => RangeError::NegOverflow(v),
        }
    }
}

impl<T> vstd::std_specs::convert::FromSpecImpl<NegOverflow<T>> for RangeError<T> {
    open spec fn obeys_from_spec() -> bool {
        true
    }

    open spec fn from_spec(e: NegOverflow<T>) -> Self {
        match e {
            NegOverflow(v) => RangeError::NegOverflow(v),
        }
    }
}

impl<T> From<NegOverflow<T>> for FloatError<T> {
    fn from(e: NegOverflow<T>) -> (r: Self) {
        match e {
            NegOverflow(v) => FloatError::NegOverflow(v),
        }
    }
}

impl<T> vstd::std_specs::convert::FromSpecImpl<NegOverflow<T>> for FloatError<T> {
    open spec fn obeys_from_spec() -> bool {
        true
    }

    open spec fn from_spec(e: NegOverflow<T>) -> Self {
        match e {
            NegOverflow(v) => FloatError::NegOverflow(v),
        }
    }
}

impl<T> From<NegOverflow<T>> for GeneralError<T> {
    fn from(e: NegOverflow<T>) -> (r: Self) {
        match e {
            NegOverflow(v) => GeneralError::NegOverflow(v),
        }
    }
}

impl<T> vstd::std_specs::convert::FromSpecImpl<NegOverflow<T>> for GeneralError<T> {
    open spec fn obeys_from_spec() -> bool {
        true
    }

    open spec fn from_spec(e: NegOverflow<T>) -> Self {
        match e {
            NegOverflow(v) => GeneralError::NegOverflow(v),
        }
    }
}

impl<T> From<NegOverflow<T>> for RangeErrorKind {
    fn from(e: NegOverflow<T>) -> (r: Self) {
        match e {
            NegOverflow(_) => RangeErrorKind::NegOverflow,
        }
    }
}

impl<T> vstd::std_specs::convert::FromSpecImpl<NegOverflow<T>> for RangeErrorKind {
    open spec fn obeys_from_spec() -> bool {
        true
    }

    open spec fn from_spec(e: NegOverflow<T>) -> Self {
        match e {
            NegOverflow(_) => RangeErrorKind::NegOverflow,
        }
    }
}

impl<T> From<NegOverflow<T>> for GeneralErrorKind {
    fn from(e: NegOverflow<T>) -> (r: Self) {
        match e {
            NegOverflow(_) => GeneralErrorKind::NegOverflow,
        }
    }
}

impl<T> vstd::std_specs::convert::FromSpecImpl<NegOverflow<T>> for GeneralErrorKind {
    open spec fn obeys_from_spec() -> bool {
        true
    }

    open spec fn from_spec(e: NegOverflow<T>) -> Self {
        match e {
            NegOverflow(_) => GeneralErrorKind::NegOverflow,
        }
    }
}

impl<T> From<PosOverflow<T>> for RangeError<T> {
    fn from(e: PosOverflow<T>) -> (r: Self) {
        match e {
            PosOverflow(v) => RangeError::PosOverflow(v),
        }
    }
}

impl<T> vstd::std_specs::convert::FromSpecImpl<PosOverflow<T>> for RangeError<T> {
    open spec fn obeys_from_spec() -> bool {
        true
    }

    open spec fn from_spec(e: PosOverflow<T>) -> Self {
        match e {
            PosOverflow(v) => RangeError::PosOverflow(v),
        }
    }
}

impl<T> From<PosOverflow<T>> for FloatError<T> {
    fn from(e: PosOverflow<T>) -> (r: Self) {
        match e {
            PosOverflow(v) => FloatError::PosOverflow(v),
        }
    }
}

impl<T> vstd::std_specs::convert::FromSpecImpl<PosOverflow<T>> for FloatError<T> {
    open spec fn obeys_from_spec() -> bool {
        true
    }

    open spec fn from_spec(e: PosOverflow<T>) -> Self {
        match e {
            PosOverflow(v) => FloatError::PosOverflow(v),
        }
    }
}

impl<T> From<PosOverflow<T>> for GeneralError<T> {
    fn from(e: PosOverflow<T>) -> (r: Self) {
        match e {
            PosOverflow(v) => GeneralError::PosOverflow(v),
        }
    }
}

impl<T> vstd::std_specs::convert::FromSpecImpl<PosOverflow<T>> for GeneralError<T> {
    open spec fn obeys_from_spec() -> bool {
        true
    }

    open spec fn from_spec(e: PosOverflow<T>) -> Self {
        match e {
            PosOverflow(v) => GeneralError::PosOverflow(v),
        }
    }
}

impl<T> From<PosOverflow<T>> for RangeErrorKind {
    fn from(e: PosOverflow<T>) -> (r: Self) {
        match e {
            PosOverflow(_) => RangeErrorKind::PosOverflow,
        }
    }
}

impl<T> vstd::std_specs::convert::FromSpecImpl<PosOverflow<T>> for RangeErrorKind {
    open spec fn obeys_from_spec() -> bool {
        true
    }

    open spec fn from_spec(e: PosOverflow<T>) -> Self {
        match e {
            PosOverflow(_) => RangeErrorKind::PosOverflow,
        }
    }
}

impl<T> From<PosOverflow<T>> for GeneralErrorKind {
    fn from(e: PosOverflow<T>) -> (r: Self) {
        match e {
            PosOverflow(_) => GeneralErrorKind::PosOverflow,
        }
    }
}

impl<T> vstd::std_specs::convert::FromSpecImpl<PosOverflow<T>> for GeneralErrorKind {
    open spec fn obeys_from_spec() -> bool {
        true
    }

    open spec fn from_spec(e: PosOverflow<T>) -> Self {
        match e {
            PosOverflow(_) => GeneralErrorKind::PosOverflow,
        }
    }
}

impl<T> From<RangeError<T>> for FloatError<T> {
    fn from(e: RangeError<T>) -> (r: Self) {
        match e {
            RangeError::NegOverflow(v) => FloatError::NegOverflow(v),
            RangeError::PosOverflow(v) => FloatError::PosOverflow(v),
        }
    }
}

impl<T> vstd::std_specs::convert::FromSpecImpl<RangeError<T>> for FloatError<T> {
    open spec fn obeys_from_spec() -> bool {
        true
    }

    open spec fn from_spec(e: RangeError<T>) -> Self {
        match e {
            RangeError::NegOverflow(v) => FloatError::NegOverflow(v),
            RangeError::PosOverflow(v) => FloatError::PosOverflow(v),
        }
    }
}

impl<T> From<RangeError<T>> for GeneralError<T> {
    fn from(e: RangeError<T>) -> (r: Self) {
        match e {
            RangeError::NegOverflow(v) => GeneralError::NegOverflow(v),
            RangeError::PosOverflow(v) => GeneralError::PosOverflow(v),
        }
    }
}

impl<T> vstd::std_specs::convert::FromSpecImpl<RangeError<T>> for GeneralError<T> {
    open spec fn obeys_from_spec() -> bool {
        true
    }

    open spec fn from_spec(e: RangeError<T>) -> Self {
        match e {
            RangeError::NegOverflow(v) => GeneralError::NegOverflow(v),
            RangeError::PosOverflow(v) => GeneralError::PosOverflow(v),
        }
    }
}

impl<T> From<RangeError<T>> for RangeErrorKind {
    fn from(e: RangeError<T>) -> (r: Self) {
        match e {
            RangeError::NegOverflow(_) => RangeErrorKind::NegOverflow,
            RangeError::PosOverflow(_) => RangeErrorKind::PosOverflow,
        }
    }
}

impl<T> vstd::std_specs::convert::FromSpecImpl<RangeError<T>> for RangeErrorKind {
    open spec fn obeys_from_spec() -> bool {
        true
    }

    open spec fn from_spec(e: RangeError<T>) -> Self {
        match e {
            RangeError::NegOverflow(_) => RangeErrorKind::NegOverflow,
            RangeError::PosOverflow(_) => RangeErrorKind::PosOverflow,
        }
    }
}

impl<T> From<RangeError<T>> for GeneralErrorKind {
    fn from(e: RangeError<T>) -> (r: Self) {
        match e {
            RangeError::NegOverflow(_) => GeneralErrorKind::NegOverflow,
            RangeError::PosOverflow(_) => GeneralErrorKind::PosOverflow,
        }
    }
}

impl<T> vstd::std_specs::convert::FromSpecImpl<RangeError<T>> for GeneralErrorKind {
    open spec fn obeys_from_spec() -> bool {
        true
    }

    open spec fn from_spec(e: RangeError<T>) -> Self {
        match e {
            RangeError::NegOverflow(_) => GeneralErrorKind::NegOverflow,
            RangeError::PosOverflow(_) => GeneralErrorKind::PosOverflow,
        }
    }
}

impl<T> From<FloatError<T>> for GeneralError<T> {
    fn from(e: FloatError<T>) -> (r: Self) {
        match e {
            FloatError::NegOverflow(v) => GeneralError::NegOverflow(v),
            FloatError::PosOverflow(v) => GeneralError::PosOverflow(v),
            FloatError::NotANumber(v) => GeneralError::Unrepresentable(v),
        }
    }
}

impl<T> vstd::std_specs::convert::FromSpecImpl<FloatError<T>> for GeneralError<T> {
    open spec fn obeys_from_spec() -> bool {
        true
    }

    open spec fn from_spec(e: FloatError<T>) -> Self {
        match e {
            FloatError::NegOverflow(v) => GeneralError::NegOverflow(v),
            FloatError::PosOverflow(v) => GeneralError::PosOverflow(v),
            FloatError::NotANumber(v) => GeneralError::Unrepresentable(v),
        }
    }
}

impl<T> From<FloatError<T>> for GeneralErrorKind {
    fn from(e: FloatError<T>) -> (r: Self) {
        match e {
            FloatError::NegOverflow(_) => GeneralErrorKind::NegOverflow,
            FloatError::PosOverflow(_) => GeneralErrorKind::PosOverflow,
            FloatError::NotANumber(_) => GeneralErrorKind::Unrepresentable,
        }
    }
}

impl<T> vstd::std_specs::convert::FromSpecImpl<FloatError<T>> for GeneralErrorKind {
    open spec fn obeys_from_spec() -> bool {
        true
    }

    open spec fn from_spec(e: FloatError<T>) -> Self {
        match e {
            FloatError::NegOverflow(_) => GeneralErrorKind::NegOverflow,
            FloatError::PosOverflow(_) => GeneralErrorKind::PosOverflow,
            FloatError::NotANumber(_) => GeneralErrorKind::Unrepresentable,
        }
    }
}

impl<T> From<GeneralError<T>> for GeneralErrorKind {
    fn from(e: GeneralError<T>) -> (r: Self) {
        match e {
            GeneralError::NegOverflow(_) => GeneralErrorKind::NegOverflow,
            GeneralError::PosOverflow(_) => GeneralErrorKind::PosOverflow,
            GeneralError::Unrepresentable(_) => GeneralErrorKind::Unrepresentable,
        }
    }
}

impl<T> vstd::std_specs::convert::FromSpecImpl<GeneralError<T>> for GeneralErrorKind {
    open spec fn obeys_from_spec() -> bool {
        true
    }

    open spec fn from_spec(e: GeneralError<T>) -> Self {
        match e {
            GeneralError::NegOverflow(_) => GeneralErrorKind::NegOverflow,
            GeneralError::PosOverflow(_) => GeneralErrorKind::PosOverflow,
            GeneralError::Unrepresentable(_) => GeneralErrorKind::Unrepresentable,
        }
    }
}

impl From<RangeErrorKind> for GeneralErrorKind {
    fn from(e: RangeErrorKind) -> (r: Self) {
        match e {
            RangeErrorKind::NegOverflow => GeneralErrorKind::NegOverflow,
            RangeErrorKind::PosOverflow => GeneralErrorKind::PosOverflow,
        }
    }
}

impl vstd::std_specs::convert::FromSpecImpl<RangeErrorKind> for GeneralErrorKind {
    open spec fn obeys_from_spec() -> bool {
        true
    }

    open spec fn from_spec(e: RangeErrorKind) -> Self {
        match e {
            RangeErrorKind::NegOverflow => GeneralErrorKind::NegOverflow,
            RangeErrorKind::PosOverflow => GeneralErrorKind::PosOverflow,
        }
    }
}

impl<T> From<NoError> for Unrepresentable<T> {
    fn from(e: NoError) -> (r: Self) {
        match e {
            NoError::Never(never) => never_value(never),
        }
    }
}

impl<T> vstd::std_specs::convert::FromSpecImpl<NoError> for Unrepresentable<T> {
    open spec fn obeys_from_spec() -> bool {
        false
    }

    open spec fn from_spec(e: NoError) -> Self {
        arbitrary()
    }
}

impl<T> From<NoError> for NegOverflow<T> {
    fn from(e: NoError) -> (r: Self) {
        match e {
            NoError::Never(never) => never_value(never),
        }
    }
}

impl<T> vstd::std_specs::convert::FromSpecImpl<NoError> for NegOverflow<T> {
    open spec fn obeys_from_spec() -> bool {
        false
    }

    open spec fn from_spec(e: NoError) -> Self {
        arbitrary()
    }
}

impl<T> From<NoError> for PosOverflow<T> {
    fn from(e: NoError) -> (r: Self) {
        match e {
            NoError::Never(never) => never_value(never),
        }
    }
}

impl<T> vstd::std_specs::convert::FromSpecImpl<NoError> for PosOverflow<T> {
    open spec fn obeys_from_spec() -> bool {
        false
    }

    open spec fn from_spec(e: NoError) -> Self {
        arbitrary()
    }
}

impl<T> From<NoError> for RangeError<T> {
    fn from(e: NoError) -> (r: Self) {
        match e {
            NoError::Never(never) => never_value(never),
        }
    }
}

impl<T> vstd::std_specs::convert::FromSpecImpl<NoError> for RangeError<T> {
    open spec fn obeys_from_spec() -> bool {
        false
    }

    open spec fn from_spec(e: NoError) -> Self {
        arbitrary()
    }
}

impl<T> From<NoError> for FloatError<T> {
    fn from(e: NoError) -> (r: Self) {
        match e {
            NoError::Never(never) => never_value(never),
        }
    }
}

impl<T> vstd::std_specs::convert::FromSpecImpl<NoError> for FloatError<T> {
    open spec fn obeys_from_spec() -> bool {
        false
    }

    open spec fn from_spec(e: NoError) -> Self {
        arbitrary()
    }
}

impl<T> From<NoError> for GeneralError<T> {
    fn from(e: NoError) -> (r: Self) {
        match e {
            NoError::Never(never) => never_value(never),
        }
    }
}

impl<T> vstd::std_specs::convert::FromSpecImpl<NoError> for GeneralError<T> {
    open spec fn obeys_from_spec() -> bool {
        false
    }

    open spec fn from_spec(e: NoError) -> Self {
        arbitrary()
    }
}

impl From<NoError> for RangeErrorKind {
    fn from(e: NoError) -> (r: Self) {
        match e {
            NoError::Never(never) => never_value(never),
        }
    }
}

impl vstd::std_specs::convert::FromSpecImpl<NoError> for RangeErrorKind {
    open spec fn obeys_from_spec() -> bool {
        false
    }

    open spec fn from_spec(e: NoError) -> Self {
        arbitrary()
    }
}

impl From<NoError> for GeneralErrorKind {
    fn from(e: NoError) -> (r: Self) {
        match e {
            NoError::Never(never) => never_value(never),
        }
    }
}

impl vstd::std_specs::convert::FromSpecImpl<NoError> for GeneralErrorKind {
    open spec fn obeys_from_spec() -> bool {
        false
    }

    open spec fn from_spec(e: NoError) -> Self {
        arbitrary()
    }
}

/// Safely unwrap a `Result` that cannot contain an error.
pub trait UnwrapOk<T>: Sized {
    /// Whether the subject is in its success case.  For a `Result` whose
    /// error type is [`NoError`] this holds everywhere the error's absence
    /// has been established, which a conversion contract does statically.
    spec fn is_success(self) -> bool;

    /// The value held in the success case.
    spec fn success_value(self) -> T;

    /// Unwraps a `Result` whose error type has no values.
    ///
    /// The precondition is discharged statically wherever the `Result`
    /// comes from a conversion whose contract promises `Ok`; since
    /// [`NoError`] is uninhabited, no caller can ever be in the `Err`
    /// case.
    fn unwrap_ok(self) -> (r: T)
        requires
            self.is_success(),
        ensures
            r == self.success_value(),
    ;
}

impl<T> UnwrapOk<T> for Result<T, NoError> {
    open spec fn is_success(self) -> bool {
        self is Ok
    }

    open spec fn success_value(self) -> T {
        self->Ok_0
    }

    fn unwrap_ok(self) -> (r: T) {
        match self {
            Ok(v) => v,
            Err(_) => vstd::pervasive::unreached(),
        }
    }
}


/// An error that classifies as a pure range-error kind: an overflow that is
/// either negative or positive, with no third possibility.  This is what
/// lets [`UnwrapOrSaturate`] and [`UnwrapOrInf`] pick a direction without a
/// runtime failure case; a float error does not qualify, since not-a-number
/// has no direction.
pub trait ToRangeErrorKind: Sized {
    /// Whether `range_error_kind_spec` pins the direction down.  This is
    /// true for every real error type; only the uninhabited [`NoError`],
    /// whose classification can never be asked for, leaves it open.
    spec fn obeys_kind_spec() -> bool;

    /// The direction of the overflow this error reports.
    spec fn range_error_kind_spec(self) -> RangeErrorKind;

    /// Returns the direction of the overflow this error reports.
    fn to_range_error_kind(self) -> (k: RangeErrorKind)
        ensures
            Self::obeys_kind_spec() ==> k == self.range_error_kind_spec(),
    ;
}

impl<T> ToRangeErrorKind for NegOverflow<T> {
    open spec fn obeys_kind_spec() -> bool {
        true
    }

    open spec fn range_error_kind_spec(self) -> RangeErrorKind {
        RangeErrorKind::NegOverflow
    }

    fn to_range_error_kind(self) -> (k: RangeErrorKind) {
        RangeErrorKind::NegOverflow
    }
}

impl<T> ToRangeErrorKind for PosOverflow<T> {
    open spec fn obeys_kind_spec() -> bool {
        true
    }

    open spec fn range_error_kind_spec(self) -> RangeErrorKind {
        RangeErrorKind::PosOverflow
    }

    fn to_range_error_kind(self) -> (k: RangeErrorKind) {
        RangeErrorKind::PosOverflow
    }
}

impl<T> ToRangeErrorKind for RangeError<T> {
    open spec fn obeys_kind_spec() -> bool {
        true
    }

    open spec fn range_error_kind_spec(self) -> RangeErrorKind {
        match self {
            RangeError::NegOverflow(_) => RangeErrorKind::NegOverflow,
            RangeError::PosOverflow(_) => RangeErrorKind::PosOverflow,
        }
    }

    fn to_range_error_kind(self) -> (k: RangeErrorKind) {
        match self {
            RangeError::NegOverflow(_) => RangeErrorKind::NegOverflow,
            RangeError::PosOverflow(_) => RangeErrorKind::PosOverflow,
        }
    }
}

impl ToRangeErrorKind for RangeErrorKind {
    open spec fn obeys_kind_spec() -> bool {
        true
    }

    open spec fn range_error_kind_spec(self) -> RangeErrorKind {
        self
    }

    fn to_range_error_kind(self) -> (k: RangeErrorKind) {
        self
    }
}

impl ToRangeErrorKind for NoError {
    open spec fn obeys_kind_spec() -> bool {
        false
    }

    open spec fn range_error_kind_spec(self) -> RangeErrorKind {
        arbitrary()
    }

    fn to_range_error_kind(self) -> (k: RangeErrorKind) {
        match self {
            NoError::Never(never) => never_value(never),
        }
    }
}

/// Saturates a `Result`: replaces an overflow error with the destination
/// type's corresponding bound, leaving any other failure (not-a-number) in
/// place as a residual error that the caller must still handle.
pub trait Saturate: Sized {
    /// The result of saturating.
    type Output;

    /// The saturated outcome; `saturate` is bound to it.
    spec fn saturate_spec(self) -> Self::Output;

    /// Replaces an overflow error with a saturated value.
    fn saturate(self) -> (r: Self::Output)
        ensures
            r == self.saturate_spec(),
    ;
}

impl<T: Saturated, U> Saturate for Result<T, FloatError<U>> {
    type Output = Result<T, Unrepresentable<U>>;

    open spec fn saturate_spec(self) -> Result<T, Unrepresentable<U>> {
        match self {
            Ok(v) => Ok(v),
            Err(FloatError::NegOverflow(_)) => Ok(T::saturated_min_spec()),
            Err(FloatError::PosOverflow(_)) => Ok(T::saturated_max_spec()),
            Err(FloatError::NotANumber(v)) => Err(Unrepresentable(v)),
        }
    }

    fn saturate(self) -> (r: Result<T, Unrepresentable<U>>) {
        match self {
            Ok(v) => Ok(v),
            Err(FloatError::NegOverflow(_)) => Ok(T::saturated_min()),
            Err(FloatError::PosOverflow(_)) => Ok(T::saturated_max()),
            Err(FloatError::NotANumber(v)) => Err(Unrepresentable(v)),
        }
    }
}

impl<T: Saturated, U> Saturate for Result<T, RangeError<U>> {
    type Output = Result<T, NoError>;

    open spec fn saturate_spec(self) -> Result<T, NoError> {
        match self {
            Ok(v) => Ok(v),
            Err(RangeError::NegOverflow(_)) => Ok(T::saturated_min_spec()),
            Err(RangeError::PosOverflow(_)) => Ok(T::saturated_max_spec()),
        }
    }

    fn saturate(self) -> (r: Result<T, NoError>) {
        match self {
            Ok(v) => Ok(v),
            Err(RangeError::NegOverflow(_)) => Ok(T::saturated_min()),
            Err(RangeError::PosOverflow(_)) => Ok(T::saturated_max()),
        }
    }
}

impl<T: Saturated> Saturate for Result<T, RangeErrorKind> {
    type Output = Result<T, NoError>;

    open spec fn saturate_spec(self) -> Result<T, NoError> {
        match self {
            Ok(v) => Ok(v),
            Err(RangeErrorKind::NegOverflow) => Ok(T::saturated_min_spec()),
            Err(RangeErrorKind::PosOverflow) => Ok(T::saturated_max_spec()),
        }
    }

    fn saturate(self) -> (r: Result<T, NoError>) {
        match self {
            Ok(v) => Ok(v),
            Err(RangeErrorKind::NegOverflow) => Ok(T::saturated_min()),
            Err(RangeErrorKind::PosOverflow) => Ok(T::saturated_max()),
        }
    }
}

/// Unwrap a conversion by saturating to infinity in the direction of the
/// overflow.
pub trait UnwrapOrInf {
    /// The result of unwrapping.
    type Output;

    /// The unwrapped outcome; `unwrap_or_inf` is bound to it.
    spec fn unwrap_or_inf_spec(self) -> Self::Output;

    /// Whether `unwrap_or_inf_spec` pins the outcome down; see
    /// [`ToRangeErrorKind::obeys_kind_spec`].
    spec fn obeys_unwrap_or_inf_spec() -> bool;

    /// Either unwraps the successfully converted value, or saturates to
    /// infinity in the direction of the overflow.
    fn unwrap_or_inf(self) -> (r: Self::Output)
        ensures
            Self::obeys_unwrap_or_inf_spec() ==> r == self.unwrap_or_inf_spec(),
    ;
}

impl<T: SignedInfinity, E: ToRangeErrorKind> UnwrapOrInf for Result<T, E> {
    type Output = T;

    open spec fn obeys_unwrap_or_inf_spec() -> bool {
        E::obeys_kind_spec()
    }

    open spec fn unwrap_or_inf_spec(self) -> T {
        match self {
            Ok(v) => v,
            Err(e) => match e.range_error_kind_spec() {
                RangeErrorKind::NegOverflow => T::neg_infinity_spec(),
                RangeErrorKind::PosOverflow => T::pos_infinity_spec(),
            },
        }
    }

    fn unwrap_or_inf(self) -> (r: T) {
        match self {
            Ok(v) => v,
            Err(e) => match e.to_range_error_kind() {
                RangeErrorKind::NegOverflow => T::neg_infinity(),
                RangeErrorKind::PosOverflow => T::pos_infinity(),
            },
        }
    }
}

/// Unwrap a conversion by replacing any failure with the destination
/// type's invalid sentinel value.
pub trait UnwrapOrInvalid {
    /// The result of unwrapping.
    type Output;

    /// The unwrapped outcome; `unwrap_or_invalid` is bound to it.
    spec fn unwrap_or_invalid_spec(self) -> Self::Output;

    /// Either unwraps the successfully converted value, or returns the
    /// destination type's invalid sentinel.
    fn unwrap_or_invalid(self) -> (r: Self::Output)
        ensures
            r == self.unwrap_or_invalid_spec(),
    ;
}

impl<T: InvalidSentinel, E> UnwrapOrInvalid for Result<T, E> {
    type Output = T;

    open spec fn unwrap_or_invalid_spec(self) -> T {
        match self {
            Ok(v) => v,
            Err(_) => T::invalid_sentinel_spec(),
        }
    }

    fn unwrap_or_invalid(self) -> (r: T) {
        match self {
            Ok(v) => v,
            Err(_) => T::invalid_sentinel(),
        }
    }
}

/// Unwrap a conversion by saturating to the destination type's bound in
/// the direction of the overflow.
pub trait UnwrapOrSaturate {
    /// The result of unwrapping.
    type Output;

    /// The unwrapped outcome; `unwrap_or_saturate` is bound to it.
    spec fn unwrap_or_saturate_spec(self) -> Self::Output;

    /// Whether `unwrap_or_saturate_spec` pins the outcome down; see
    /// [`ToRangeErrorKind::obeys_kind_spec`].
    spec fn obeys_unwrap_or_saturate_spec() -> bool;

    /// Either unwraps the successfully converted value, or saturates in
    /// the direction of the overflow.
    fn unwrap_or_saturate(self) -> (r: Self::Output)
        ensures
            Self::obeys_unwrap_or_saturate_spec() ==> r == self.unwrap_or_saturate_spec(),
    ;
}

impl<T: Saturated, E: ToRangeErrorKind> UnwrapOrSaturate for Result<T, E> {
    type Output = T;

    open spec fn obeys_unwrap_or_saturate_spec() -> bool {
        E::obeys_kind_spec()
    }

    open spec fn unwrap_or_saturate_spec(self) -> T {
        match self {
            Ok(v) => v,
            Err(e) => match e.range_error_kind_spec() {
                RangeErrorKind::NegOverflow => T::saturated_min_spec(),
                RangeErrorKind::PosOverflow => T::saturated_max_spec(),
            },
        }
    }

    fn unwrap_or_saturate(self) -> (r: T) {
        match self {
            Ok(v) => v,
            Err(e) => match e.to_range_error_kind() {
                RangeErrorKind::NegOverflow => T::saturated_min(),
                RangeErrorKind::PosOverflow => T::saturated_max(),
            },
        }
    }
}

} // verus!
