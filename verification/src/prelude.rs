//! Re-exports the most generally useful set of items.

pub use crate::{
    ApproxFrom, ApproxInto, ConvAsUtil, ConvUtil, Fp32, Fp64, GeneralError, GeneralErrorKind,
    RoundToNearest, RoundToZero, Saturate, UnwrapOk, UnwrapOrInf, UnwrapOrInvalid,
    UnwrapOrSaturate, ValueFrom, ValueInto, Wrapping,
};
