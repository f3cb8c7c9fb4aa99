//! A total ordering over all IEEE-754 single-precision bit patterns.
//!
//! The natural float order is partial: NaN compares with nothing, and the two
//! zeros are equal. Sorting needs a total order, so `safe_cmp` orders by the
//! IEEE-754 `totalOrder` predicate instead: every pattern is mapped to a key
//! whose unsigned order places negative NaNs below all negative values, those
//! below negative zero, negative zero below positive zero, and positive values
//! below positive NaNs. The key map is injective, so the order is total,
//! antisymmetric and transitive — proved below.

use core::cmp::Ordering;
use vstd::prelude::*;

use crate::bits::{is_nan_bits, sign_of_bits, SIGN_MASK};

verus! {

/// The sort key of a pattern: flipping all bits of a negative pattern and
/// setting the sign bit of a non-negative one makes the unsigned order of the
/// keys the IEEE-754 total order of the values.
pub open spec fn total_order_key(b: u32) -> u32 {
    if b & SIGN_MASK != 0 {
        !b
    } else {
        b | SIGN_MASK
    }
}

/// `a` comes no later than `b` in the total order.
pub open spec fn total_le_bits(a: u32, b: u32) -> bool {
    total_order_key(a) <= total_order_key(b)
}

/// Two patterns with equal keys are the same pattern.
pub proof fn lemma_key_injective(a: u32, b: u32)
    ensures
        total_order_key(a) == total_order_key(b) ==> a == b,
{
    assert((if a & 0x8000_0000u32 != 0 {
        !a
    } else {
        a | 0x8000_0000u32
    }) == (if b & 0x8000_0000u32 != 0 {
        !b
    } else {
        b | 0x8000_0000u32
    }) ==> a == b) by (bit_vector);
}

/// The total order is reflexive.
pub proof fn lemma_total_order_reflexive(a: u32)
    ensures
        total_le_bits(a, a),
{
}

/// The total order is total: any two patterns are comparable.
pub proof fn lemma_total_order_total(a: u32, b: u32)
    ensures
        total_le_bits(a, b) || total_le_bits(b, a),
{
}

/// The total order is antisymmetric: mutual `<=` forces bit-for-bit equality.
pub proof fn lemma_total_order_antisymmetric(a: u32, b: u32)
    ensures
        total_le_bits(a, b) && total_le_bits(b, a) ==> a == b,
{
    lemma_key_injective(a, b);
}

/// The total order is transitive.
pub proof fn lemma_total_order_transitive(a: u32, b: u32, c: u32)
    ensures
        total_le_bits(a, b) && total_le_bits(b, c) ==> total_le_bits(a, c),
{
}

/// The comparison relation as a value, for statements about sequences.
pub open spec fn total_le_rel() -> spec_fn(u32, u32) -> bool {
    |a: u32, b: u32| total_le_bits(a, b)
}

/// The relation is a total ordering in the library sense: reflexive,
/// antisymmetric, transitive and with any two patterns comparable.
pub proof fn lemma_total_le_is_total_ordering()
    ensures
        vstd::relations::total_ordering(total_le_rel()),
{
    let r = total_le_rel();
    assert forall|a: u32, b: u32| #[trigger] r(a, b) && #[trigger] r(b, a) implies a == b by {
        lemma_key_injective(a, b);
    }
    assert(vstd::relations::reflexive(r));
    assert(vstd::relations::antisymmetric(r));
    assert(vstd::relations::transitive(r));
    assert(vstd::relations::strongly_connected(r));
}

/// Sorting in the total order is canonical: two sequences that are sorted by
/// it and hold the same patterns, each the same number of times, are the same
/// sequence — so sorting any permutation of a collection of values, NaNs
/// included, always yields the same order.
pub proof fn lemma_sort_canonical(x: Seq<u32>, y: Seq<u32>)
    requires
        vstd::relations::sorted_by(x, total_le_rel()),
        vstd::relations::sorted_by(y, total_le_rel()),
        x.to_multiset() == y.to_multiset(),
    ensures
        x == y,
{
    lemma_total_le_is_total_ordering();
    vstd::seq_lib::lemma_sorted_unique(x, y, total_le_rel());
    assert(x =~= y);
}

/// Where each class of pattern stands in the total order: every pattern with
/// the sign bit set comes before every pattern without it, negative NaNs come
/// before every other negative pattern, and positive NaNs after every other
/// non-negative pattern. Within a sign, magnitude order of the encodings is
/// key order — ascending for non-negative patterns, descending for negative
/// ones.
pub proof fn lemma_total_order_classes(a: u32, b: u32)
    ensures
        sign_of_bits(a) && !sign_of_bits(b) ==> total_order_key(a) < total_order_key(b),
        sign_of_bits(a) && is_nan_bits(a) && sign_of_bits(b) && !is_nan_bits(b)
            ==> total_order_key(a) < total_order_key(b),
        !sign_of_bits(a) && !is_nan_bits(a) && !sign_of_bits(b) && is_nan_bits(b)
            ==> total_order_key(a) < total_order_key(b),
        !sign_of_bits(a) && !sign_of_bits(b) ==> (total_order_key(a) < total_order_key(b)
            <==> a < b),
        sign_of_bits(a) && sign_of_bits(b) ==> (total_order_key(a) < total_order_key(b) <==> a
            > b),
{
    assert(a & 0x8000_0000u32 != 0 && b & 0x8000_0000u32 == 0 ==> !a < (b | 0x8000_0000u32))
        by (bit_vector);
    assert(a & 0x8000_0000u32 != 0 && (a & 0x7F80_0000u32 == 0x7F80_0000u32 && a
        & 0x007F_FFFFu32 != 0) && b & 0x8000_0000u32 != 0 && !(b & 0x7F80_0000u32
        == 0x7F80_0000u32 && b & 0x007F_FFFFu32 != 0) ==> !a < !b) by (bit_vector);
    assert(a & 0x8000_0000u32 == 0 && !(a & 0x7F80_0000u32 == 0x7F80_0000u32 && a
        & 0x007F_FFFFu32 != 0) && b & 0x8000_0000u32 == 0 && (b & 0x7F80_0000u32
        == 0x7F80_0000u32 && b & 0x007F_FFFFu32 != 0) ==> (a | 0x8000_0000u32) < (b
        | 0x8000_0000u32)) by (bit_vector);
    assert(a & 0x8000_0000u32 == 0 && b & 0x8000_0000u32 == 0 ==> ((a | 0x8000_0000u32) < (b
        | 0x8000_0000u32) <==> a < b)) by (bit_vector);
    assert(a & 0x8000_0000u32 != 0 && b & 0x8000_0000u32 != 0 ==> (!a < !b <==> a > b))
        by (bit_vector);
}

/// Compare two patterns in the IEEE-754 total order. Unlike the natural float
/// comparison this never fails and never treats two distinct patterns as
/// equal: NaNs and the two zeros each have a definite place.
pub fn safe_cmp(a: u32, b: u32) -> (r: Ordering)
    ensures
        r == Ordering::Less <==> total_order_key(a) < total_order_key(b),
        r == Ordering::Equal <==> a == b,
        r == Ordering::Greater <==> total_order_key(a) > total_order_key(b),
{
    proof {
        lemma_key_injective(a, b);
    }
    let ka: u32 = if a & SIGN_MASK != 0 {
        !a
    } else {
        a | SIGN_MASK
    };
    let kb: u32 = if b & SIGN_MASK != 0 {
        !b
    } else {
        b | SIGN_MASK
    };
    if ka < kb {
        Ordering::Less
    } else if ka == kb {
        Ordering::Equal
    } else {
        Ordering::Greater
    }
}

} // verus!
