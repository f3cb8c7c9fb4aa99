//! Scale-relative approximate equality, decided over bit patterns.
//!
//! The test has three rungs, first match wins: exact IEEE equality (so an
//! infinity equals itself), an absolute tolerance (so values near zero can
//! still match), and a tolerance scaled by the larger magnitude. The two
//! comparisons on the later rungs involve a rounded difference `|a - b|` and a
//! rounded product `max(|a|, |b|) * epsilon`; those two values come from
//! floating-point hardware, so the caller hands them in as bit patterns and
//! the decision proved here holds for whatever was handed in. IEEE equality
//! and IEEE `<=` themselves are exact bit logic and are defined and computed
//! here: NaN compares equal to and below nothing, the two zeros are equal, and
//! otherwise the order of the total-order keys is the order of the values.

use vstd::prelude::*;

use crate::bits::{
    is_nan_bits, is_zero_bits, spec_abs_bits, ABS_MASK, EXP_MASK, FRAC_MASK, SIGN_MASK,
};
use crate::order::total_order_key;

verus! {

/// IEEE equality of two encoded values: false whenever either side is NaN,
/// true for the two zeros, and otherwise bit-for-bit equality.
pub open spec fn ieee_eq_bits(a: u32, b: u32) -> bool {
    &&& !is_nan_bits(a)
    &&& !is_nan_bits(b)
    &&& (a == b || (is_zero_bits(a) && is_zero_bits(b)))
}

/// IEEE `<=` of two encoded values: false whenever either side is NaN, true
/// for the two zeros in either order, and otherwise the total-order key
/// comparison, which for non-NaN patterns is the value comparison.
pub open spec fn ieee_le_bits(a: u32, b: u32) -> bool {
    &&& !is_nan_bits(a)
    &&& !is_nan_bits(b)
    &&& ((is_zero_bits(a) && is_zero_bits(b)) || total_order_key(a) <= total_order_key(b))
}

/// IEEE `>` of two encoded values: for non-NaN sides the negation of `<=`,
/// and false whenever either side is NaN.
pub open spec fn ieee_gt_bits(a: u32, b: u32) -> bool {
    &&& !is_nan_bits(a)
    &&& !is_nan_bits(b)
    &&& !(is_zero_bits(a) && is_zero_bits(b))
    &&& total_order_key(a) > total_order_key(b)
}

/// Whether the encoded values are IEEE-equal.
pub fn ieee_eq(a: u32, b: u32) -> (r: bool)
    ensures
        r == ieee_eq_bits(a, b),
{
    let a_nan = a & EXP_MASK == EXP_MASK && a & FRAC_MASK != 0;
    let b_nan = b & EXP_MASK == EXP_MASK && b & FRAC_MASK != 0;
    !a_nan && !b_nan && (a == b || (a & ABS_MASK == 0 && b & ABS_MASK == 0))
}

/// Whether the first encoded value is IEEE less than or equal to the second.
pub fn ieee_le(a: u32, b: u32) -> (r: bool)
    ensures
        r == ieee_le_bits(a, b),
{
    let a_nan = a & EXP_MASK == EXP_MASK && a & FRAC_MASK != 0;
    let b_nan = b & EXP_MASK == EXP_MASK && b & FRAC_MASK != 0;
    if a_nan || b_nan {
        return false;
    }
    if a & ABS_MASK == 0 && b & ABS_MASK == 0 {
        return true;
    }
    let ka: u32 = if a & SIGN_MASK != 0 {
        !a
    } else {
        a | SIGN_MASK
    };
    let kb: u32 = if b & SIGN_MASK != 0 {
        !b
    } else {
        b | SIGN_MASK
    };
    ka <= kb
}

/// The larger magnitude of the two encoded values, picked by a strict
/// IEEE comparison: the magnitude of `a` when it is IEEE-greater than the
/// magnitude of `b`, else the magnitude of `b` — so when either side is NaN
/// the comparison fails and the magnitude of `b` is returned.
pub open spec fn spec_max_abs_bits(a: u32, b: u32) -> u32 {
    if ieee_gt_bits(spec_abs_bits(a), spec_abs_bits(b)) {
        spec_abs_bits(a)
    } else {
        spec_abs_bits(b)
    }
}

/// The larger of the two magnitudes; with no NaN among the inputs it is the
/// magnitude of one input and IEEE-bounds both.
pub fn max_abs_bits(a: u32, b: u32) -> (r: u32)
    ensures
        r == spec_max_abs_bits(a, b),
        !is_nan_bits(a) && !is_nan_bits(b) ==> {
            &&& (r == spec_abs_bits(a) || r == spec_abs_bits(b))
            &&& ieee_le_bits(spec_abs_bits(a), r)
            &&& ieee_le_bits(spec_abs_bits(b), r)
        },
{
    let abs_a = a & ABS_MASK;
    let abs_b = b & ABS_MASK;
    proof {
        // Clearing the sign bit changes neither the exponent nor the
        // significand field, so a magnitude is NaN exactly when its value is.
        assert(a & 0x7FFF_FFFFu32 & 0x7F80_0000u32 == a & 0x7F80_0000u32) by (bit_vector);
        assert(a & 0x7FFF_FFFFu32 & 0x007F_FFFFu32 == a & 0x007F_FFFFu32) by (bit_vector);
        assert(b & 0x7FFF_FFFFu32 & 0x7F80_0000u32 == b & 0x7F80_0000u32) by (bit_vector);
        assert(b & 0x7FFF_FFFFu32 & 0x007F_FFFFu32 == b & 0x007F_FFFFu32) by (bit_vector);
    }
    let a_nan = abs_a & EXP_MASK == EXP_MASK && abs_a & FRAC_MASK != 0;
    let b_nan = abs_b & EXP_MASK == EXP_MASK && abs_b & FRAC_MASK != 0;
    if a_nan || b_nan {
        return abs_b;
    }
    let both_zero = abs_a & ABS_MASK == 0 && abs_b & ABS_MASK == 0;
    let ka: u32 = if abs_a & SIGN_MASK != 0 {
        !abs_a
    } else {
        abs_a | SIGN_MASK
    };
    let kb: u32 = if abs_b & SIGN_MASK != 0 {
        !abs_b
    } else {
        abs_b | SIGN_MASK
    };
    if !both_zero && ka > kb {
        abs_a
    } else {
        abs_b
    }
}

/// The three-rung approximate-equality decision over encoded values: exact
/// IEEE equality, or the handed-in difference within the absolute tolerance,
/// or within the scaled tolerance.
pub open spec fn approx_eq_bits(a: u32, b: u32, epsilon: u32, diff: u32, scaled: u32) -> bool {
    ||| ieee_eq_bits(a, b)
    ||| ieee_le_bits(diff, epsilon)
    ||| ieee_le_bits(diff, scaled)
}

/// Decide approximate equality of the values encoded by `a` and `b` under the
/// tolerance encoded by `epsilon`. The caller computes, in floating point,
/// `diff` as the encoding of `|a - b|` and `scaled` as the encoding of
/// `max(|a|, |b|) * epsilon` (the magnitude as `max_abs_bits` picks it); the
/// decision proved here holds for whatever values were handed in.
pub fn approx_eq(a: u32, b: u32, epsilon: u32, diff: u32, scaled: u32) -> (r: bool)
    ensures
        r == approx_eq_bits(a, b, epsilon, diff, scaled),
{
    if ieee_eq(a, b) {
        return true;
    }
    if ieee_le(diff, epsilon) {
        return true;
    }
    ieee_le(diff, scaled)
}

/// Approximate equality is reflexive: any value that is not NaN — finite or
/// infinite — is approximately equal to itself, under any tolerance and
/// whatever difference and scaled tolerance were computed for the later
/// rungs, because the exact-equality rung already matches.
pub proof fn lemma_approx_eq_reflexive(a: u32, epsilon: u32, diff: u32, scaled: u32)
    requires
        !is_nan_bits(a),
    ensures
        approx_eq_bits(a, a, epsilon, diff, scaled),
{
}

} // verus!
