//! Wrappers that impose a total order and a consistent hash on
//! floating-point values, which natively support only a partial order
//! (NaN compares unequal to everything, including itself).
//!
//! A value is represented by its IEEE 754 bit pattern, held in an
//! element type that satisfies the [`float::Float`] capability: a NaN
//! test, a canonical NaN constant, a (mantissa, exponent, sign)
//! decomposition for hashing, and the natural partial-order comparison.
//! Every property of the wrappers is stated and proved over that
//! capability, so it holds for the 32-bit and the 64-bit element type
//! alike.

pub mod float;

mod bits32;
mod bits64;
mod not_nan;
mod ordered_float;

pub use bits32::Bits32;
pub use bits64::Bits64;
pub use float::Float;
pub use not_nan::{FloatIsNaN, NotNaN};
pub use ordered_float::OrderedFloat;
