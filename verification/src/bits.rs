//! Classification of IEEE-754 single-precision bit patterns.
//!
//! A 32-bit encoding splits into one sign bit, eight exponent bits and 23
//! significand bits. The spec functions below say, directly in terms of those
//! fields, which patterns encode NaN, an infinity, a finite value or a zero;
//! the executable functions compute exactly those predicates.

use vstd::prelude::*;

verus! {

/// Mask of the sign bit.
pub const SIGN_MASK: u32 = 0x8000_0000;
/// Mask of the eight exponent bits.
pub const EXP_MASK: u32 = 0x7F80_0000;
/// Mask of the 23 significand bits.
pub const FRAC_MASK: u32 = 0x007F_FFFF;
/// Mask of every bit but the sign: the magnitude of the encoded value.
pub const ABS_MASK: u32 = 0x7FFF_FFFF;

/// A pattern encodes NaN when the exponent bits are all ones and the
/// significand is nonzero, whatever the sign.
pub open spec fn is_nan_bits(b: u32) -> bool {
    b & EXP_MASK == EXP_MASK && b & FRAC_MASK != 0
}

/// A pattern encodes an infinity when the exponent bits are all ones and the
/// significand is zero.
pub open spec fn is_infinite_bits(b: u32) -> bool {
    b & EXP_MASK == EXP_MASK && b & FRAC_MASK == 0
}

/// A pattern encodes a finite value when the exponent bits are not all ones.
pub open spec fn is_finite_bits(b: u32) -> bool {
    b & EXP_MASK != EXP_MASK
}

/// A pattern encodes a zero (of either sign) when all bits but the sign are
/// clear.
pub open spec fn is_zero_bits(b: u32) -> bool {
    b & ABS_MASK == 0
}

/// The sign bit of the pattern: set for negative values, negative zero and
/// negative NaNs.
pub open spec fn sign_of_bits(b: u32) -> bool {
    b & SIGN_MASK != 0
}

/// The magnitude of the pattern: the same encoding with the sign bit cleared.
pub open spec fn spec_abs_bits(b: u32) -> u32 {
    b & ABS_MASK
}

/// A finite pattern is never NaN and never an infinity.
pub proof fn lemma_finite_not_nan(b: u32)
    ensures
        is_finite_bits(b) ==> !is_nan_bits(b) && !is_infinite_bits(b),
{
}

/// Whether the pattern encodes NaN.
pub fn is_nan(b: u32) -> (r: bool)
    ensures
        r == is_nan_bits(b),
{
    b & EXP_MASK == EXP_MASK && b & FRAC_MASK != 0
}

/// Whether the pattern encodes a finite value (neither NaN nor an infinity).
pub fn is_finite(b: u32) -> (r: bool)
    ensures
        r == is_finite_bits(b),
{
    b & EXP_MASK != EXP_MASK
}

/// The pattern with the sign bit cleared: the encoding of the absolute value.
pub fn abs_bits(b: u32) -> (r: u32)
    ensures
        r == spec_abs_bits(b),
{
    b & ABS_MASK
}

} // verus!
