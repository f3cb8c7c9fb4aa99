//! Numerically robust primitives for IEEE-754 single-precision values,
//! verified over their 32-bit encodings.
//!
//! Floating-point hardware arithmetic cannot be reasoned about here, so every
//! value is handled as its IEEE-754 bit pattern (`u32`). Everything that is
//! exact bit logic — NaN and finiteness classification, IEEE equality and
//! ordering, the total-order comparator used for sorting, and the non-NaN
//! wrapper's invariant — is implemented and proved in this crate. Callers that
//! hold an `f32` convert with `f32::to_bits` / `f32::from_bits`, and hand in
//! the results of rounding arithmetic (a difference, a scaled tolerance) as
//! bit patterns wherever a decision depends on them.

pub mod approx;
pub mod bits;
pub mod nonnan;
pub mod order;

pub use approx::approx_eq;
pub use nonnan::F32;
pub use order::safe_cmp;
