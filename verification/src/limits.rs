//! The boundary constant table: for each (float format, integer type) pair
//! whose range the format cannot represent exactly near the extremes, the
//! widest value that still round-trips through the integer type.
//!
//! Casting an integer type's own maximum into a float rounds it upward
//! once the mantissa is exhausted, to a value that no longer converts
//! back; these constants mark the exact edge of safety instead.  Each is
//! an integer that is exactly representable in the float format, converts
//! successfully to the integer type, and whose next representable float
//! value in the same direction does not.  They were derived once, offline,
//! by stepping the float one representable value at a time and checking
//! the round trip; the tests hold them to exactly that property.

use vstd::prelude::*;

verus! {

/// Maximum single-precision value that can be represented in an `i32`.
pub const MAX_F32_I32: i32 = 2147483520;

/// Minimum single-precision value that can be represented in an `i32`.
pub const MIN_F32_I32: i32 = i32::MIN;

/// Maximum single-precision value that can be represented in an `i64`.
pub const MAX_F32_I64: i64 = 9223371487098961920;

/// Minimum single-precision value that can be represented in an `i64`.
pub const MIN_F32_I64: i64 = i64::MIN;

/// Maximum single-precision value that can be represented in a `u32`.
pub const MAX_F32_U32: u32 = 4294967040;

/// Maximum single-precision value that can be represented in a `u64`.
pub const MAX_F32_U64: u64 = 18446742974197923840;

/// Maximum double-precision value that can be represented in an `i64`.
pub const MAX_F64_I64: i64 = 9223372036854774784;

/// Minimum double-precision value that can be represented in an `i64`.
pub const MIN_F64_I64: i64 = i64::MIN;

/// Maximum double-precision value that can be represented in a `u64`.
pub const MAX_F64_U64: u64 = 18446744073709549568;

} // verus!
