//! A wrapper for an IEEE-754 single-precision value that is never NaN.
//!
//! The value is stored as its bit pattern, and NaN is rejected at every way
//! in. There are three constructors, matching the three routes a value can
//! take into the type: a fallible one that reports a NaN input as absence and
//! lets the caller recover; a checked one for the results of addition,
//! subtraction and multiplication, which demands a finite input; and one for
//! the results of division, which demands only a non-NaN input, since a
//! division is allowed to produce an infinity. The arithmetic itself is
//! floating-point hardware work and happens outside; whichever bit pattern it
//! produced, the constructors here admit it only if the invariant survives.
//!
//! The two demanding constructors state their check as a precondition. A
//! verified caller must prove it; an unverified caller is expected to test it
//! and treat a failure as a programmer error — fatal where assertions are
//! enabled, trusted without a check in optimized builds — which keeps the
//! two-mode invariant-enforcement policy outside the verified core.

use vstd::prelude::*;

use crate::bits::{is_finite_bits, is_nan_bits};

verus! {

/// A 32-bit IEEE-754 encoding guaranteed not to be NaN.
#[derive(Clone, Copy, PartialEq, Eq, Structural, Debug)]
pub struct F32 {
    bits: u32,
}

impl F32 {
    /// The stored bit pattern.
    pub closed spec fn spec_bits(self) -> u32 {
        self.bits
    }

    /// The invariant: the stored pattern never encodes NaN.
    pub open spec fn wf(self) -> bool {
        !is_nan_bits(self.spec_bits())
    }

    /// Fallible construction: a NaN pattern yields `None` and no instance;
    /// any other pattern — finite or infinite — is accepted as it is.
    pub fn new(bits: u32) -> (r: Option<F32>)
        ensures
            r is Some <==> !is_nan_bits(bits),
            r is Some ==> r->0.spec_bits() == bits && r->0.wf(),
    {
        if crate::bits::is_nan(bits) {
            None
        } else {
            Some(F32 { bits })
        }
    }

    /// Checked construction for the results of addition, subtraction and
    /// multiplication: the pattern must encode a finite value, so neither NaN
    /// nor an infinity can enter by this route.
    pub fn new_checked(bits: u32) -> (r: F32)
        requires
            is_finite_bits(bits),
        ensures
            r.spec_bits() == bits,
            r.wf(),
    {
        proof {
            crate::bits::lemma_finite_not_nan(bits);
        }
        F32 { bits }
    }

    /// Construction for the results of division: only NaN is rejected, so an
    /// infinite quotient — say from dividing a nonzero value by zero — is
    /// accepted. This is a deliberate asymmetry against `new_checked`.
    pub fn new_non_nan(bits: u32) -> (r: F32)
        requires
            !is_nan_bits(bits),
        ensures
            r.spec_bits() == bits,
            r.wf(),
    {
        F32 { bits }
    }

    /// The stored bit pattern, read back.
    pub fn val(&self) -> (r: u32)
        ensures
            r == self.spec_bits(),
    {
        self.bits
    }
}

} // verus!
