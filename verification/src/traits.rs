//! The conversion traits: the public face of the rule engine.
//!
//! [`ValueFrom`] performs an exact, value-preserving conversion;
//! [`ApproxFrom`] performs a conversion that may approximate under a
//! selectable [`ApproxScheme`].  The `*Into` duals mirror them with the
//! destination type in method position, and are implemented blanketly for
//! every `*From` implementation.
//!
//! Every implementation names its outcome in a `spec` function
//! (`value_from_spec`, `approx_from_spec`), and the executable method's
//! contract is simply that it returns that outcome; the spec functions of
//! the concrete implementations delegate to the rule engine's strategies,
//! so what each conversion does is pinned down exactly.

use vstd::prelude::*;

verus! {

/// This trait is used to mark approximation scheme types.
pub trait ApproxScheme {
}

/// The default approximation scheme: what would generally be expected of a
/// lossy conversion with no further instruction.  Between integer types it
/// range-checks like [`ValueFrom`]; from a floating-point source it
/// truncates toward zero and accepts any value whose truncation lands
/// within the destination's own bounds.
pub enum DefaultApprox {
    /// The scheme is a pure marker; this variant is never inspected.
    Tag,
}

impl ApproxScheme for DefaultApprox {
}

/// The wrapping scheme: converts between integer types by keeping the
/// least significant bits, reducing the value modulo the destination's
/// range size.  It never fails.
pub enum Wrapping {
    /// The scheme is a pure marker; this variant is never inspected.
    Tag,
}

impl ApproxScheme for Wrapping {
}

/// Rounds to the nearest representable value, ties away from zero, before
/// the range check.
pub enum RoundToNearest {
    /// The scheme is a pure marker; this variant is never inspected.
    Tag,
}

impl ApproxScheme for RoundToNearest {
}

/// Rounds toward negative infinity before the range check.
pub enum RoundToNegInf {
    /// The scheme is a pure marker; this variant is never inspected.
    Tag,
}

impl ApproxScheme for RoundToNegInf {
}

/// Rounds toward positive infinity before the range check.
pub enum RoundToPosInf {
    /// The scheme is a pure marker; this variant is never inspected.
    Tag,
}

impl ApproxScheme for RoundToPosInf {
}

/// Rounds toward zero before the range check.
pub enum RoundToZero {
    /// The scheme is a pure marker; this variant is never inspected.
    Tag,
}

impl ApproxScheme for RoundToZero {
}

/// An exact, value-preserving conversion.
///
/// Prefer implementing this trait, and prefer using [`ValueInto`] in
/// generic constraints.
pub trait ValueFrom<Src>: Sized {
    /// The error type produced by a failed conversion.
    type Err;

    /// The outcome of converting `src`: each implementation defines its
    /// conversion here, and `value_from` is bound to it.
    spec fn value_from_spec(src: Src) -> Result<Self, Self::Err>;

    /// Convert the given value into an exactly equivalent representation.
    fn value_from(src: Src) -> (r: Result<Self, Self::Err>)
        ensures
            r == Self::value_from_spec(src),
    ;
}

impl<Src> ValueFrom<Src> for Src {
    type Err = crate::errors::NoError;

    open spec fn value_from_spec(src: Src) -> Result<Src, crate::errors::NoError> {
        Ok(src)
    }

    fn value_from(src: Src) -> (r: Result<Src, crate::errors::NoError>) {
        Ok(src)
    }
}

/// The dual of [`ValueFrom`]; see that trait for information.
pub trait ValueInto<Dst>: Sized {
    /// The error type produced by a failed conversion.
    type Err;

    /// The outcome of converting the subject; `value_into` is bound to it.
    spec fn value_into_spec(self) -> Result<Dst, Self::Err>;

    /// Convert the subject into an exactly equivalent representation.
    fn value_into(self) -> (r: Result<Dst, Self::Err>)
        ensures
            r == self.value_into_spec(),
    ;
}

impl<Src, Dst: ValueFrom<Src>> ValueInto<Dst> for Src {
    type Err = <Dst as ValueFrom<Src>>::Err;

    open spec fn value_into_spec(self) -> Result<Dst, <Dst as ValueFrom<Src>>::Err> {
        Dst::value_from_spec(self)
    }

    fn value_into(self) -> (r: Result<Dst, <Dst as ValueFrom<Src>>::Err>) {
        Dst::value_from(self)
    }
}

/// A conversion that is permitted to approximate the result under the
/// given scheme, but never to silently wrap or saturate: if the
/// approximated value is not representable in the destination, the
/// conversion fails.
///
/// Prefer implementing this trait, and prefer using [`ApproxInto`] in
/// generic constraints.
pub trait ApproxFrom<Src, Scheme = DefaultApprox>: Sized where Scheme: ApproxScheme {
    /// The error type produced by a failed conversion.
    type Err;

    /// The outcome of converting `src` under the scheme: each
    /// implementation defines its conversion here, and `approx_from` is
    /// bound to it.
    spec fn approx_from_spec(src: Src) -> Result<Self, Self::Err>;

    /// Convert the given value into an approximately equivalent
    /// representation.
    fn approx_from(src: Src) -> (r: Result<Self, Self::Err>)
        ensures
            r == Self::approx_from_spec(src),
    ;
}

impl<Src, Scheme: ApproxScheme> ApproxFrom<Src, Scheme> for Src {
    type Err = crate::errors::NoError;

    open spec fn approx_from_spec(src: Src) -> Result<Src, crate::errors::NoError> {
        Ok(src)
    }

    fn approx_from(src: Src) -> (r: Result<Src, crate::errors::NoError>) {
        Ok(src)
    }
}

/// The dual of [`ApproxFrom`]; see that trait for information.
pub trait ApproxInto<Dst, Scheme = DefaultApprox>: Sized where Scheme: ApproxScheme {
    /// The error type produced by a failed conversion.
    type Err;

    /// The outcome of converting the subject; `approx_into` is bound to
    /// it.
    spec fn approx_into_spec(self) -> Result<Dst, Self::Err>;

    /// Convert the subject into an approximately equivalent
    /// representation.
    fn approx_into(self) -> (r: Result<Dst, Self::Err>)
        ensures
            r == self.approx_into_spec(),
    ;
}

impl<Src, Dst: ApproxFrom<Src, Scheme>, Scheme: ApproxScheme> ApproxInto<Dst, Scheme> for Src {
    type Err = <Dst as ApproxFrom<Src, Scheme>>::Err;

    open spec fn approx_into_spec(self) -> Result<Dst, <Dst as ApproxFrom<Src, Scheme>>::Err> {
        Dst::approx_from_spec(self)
    }

    fn approx_into(self) -> (r: Result<Dst, <Dst as ApproxFrom<Src, Scheme>>::Err>) {
        Dst::approx_from(self)
    }
}

/// Ergonomic helpers with the destination type in parameter position, for
/// call sites where inference needs a nudge.  Pure delegation: every method
/// forwards to a `*Into` trait and promises exactly that trait's outcome.
pub trait ConvUtil {
    /// Approximate the subject to a given type with the default scheme.
    fn approx_as<Dst>(self) -> (r: Result<Dst, Self::Err>) where
        Self: Sized + ApproxInto<Dst, DefaultApprox>,

        ensures
            r == self.approx_into_spec(),
    {
        self.approx_into()
    }

    /// Approximate the subject to a given type with a specific scheme.
    fn approx_as_by<Dst, Scheme>(self) -> (r: Result<Dst, Self::Err>) where
        Self: Sized + ApproxInto<Dst, Scheme>,
        Scheme: ApproxScheme,

        ensures
            r == self.approx_into_spec(),
    {
        self.approx_into()
    }

    /// Convert the subject to a given type through `Into`.
    fn into_as<Dst>(self) -> (r: Dst) where Self: Sized + core::convert::Into<Dst>
        ensures
            <Self as vstd::std_specs::convert::IntoSpec<Dst>>::obeys_into_spec() ==> r
                == vstd::std_specs::convert::IntoSpec::<Dst>::into_spec(self),
    {
        self.into()
    }

    /// Attempt to convert the subject to a given type through `TryInto`.
    fn try_as<Dst>(self) -> (r: Result<Dst, Self::Error>) where
        Self: Sized + core::convert::TryInto<Dst>,

        ensures
            <Self as vstd::std_specs::convert::TryIntoSpec<Dst>>::obeys_try_into_spec() ==> r
                == vstd::std_specs::convert::TryIntoSpec::<Dst>::try_into_spec(self),
    {
        self.try_into()
    }

    /// Attempt a value conversion of the subject to a given type.
    fn value_as<Dst>(self) -> (r: Result<Dst, Self::Err>) where Self: Sized + ValueInto<Dst>
        ensures
            r == self.value_into_spec(),
    {
        self.value_into()
    }
}

impl<T> ConvUtil for T {
}

/// Ergonomic helpers with the destination type inferred from context.
/// Pure delegation, as with [`ConvUtil`].
pub trait ConvAsUtil<Dst> {
    /// Approximate the subject with the default scheme.
    fn approx(self) -> (r: Result<Dst, Self::Err>) where
        Self: Sized + ApproxInto<Dst, DefaultApprox>,

        ensures
            r == self.approx_into_spec(),
    {
        self.approx_into()
    }

    /// Approximate the subject with a specific scheme.
    fn approx_by<Scheme>(self) -> (r: Result<Dst, Self::Err>) where
        Self: Sized + ApproxInto<Dst, Scheme>,
        Scheme: ApproxScheme,

        ensures
            r == self.approx_into_spec(),
    {
        self.approx_into()
    }
}

impl<T, Dst> ConvAsUtil<Dst> for T {
}

} // verus!
