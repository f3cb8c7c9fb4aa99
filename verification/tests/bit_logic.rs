//! The bit-level predicates against std's own `f32` semantics: the verified
//! classification, equality and ordering functions must agree with the
//! hardware on every sample value and pair.

use fp::approx;
use fp::bits;
use fp::order;

fn samples() -> Vec<f32> {
    vec![
        f32::NAN,
        -f32::NAN,
        f32::INFINITY,
        f32::NEG_INFINITY,
        0.0,
        -0.0,
        1.0,
        -1.0,
        1.5,
        -2.5,
        f32::MAX,
        f32::MIN,
        f32::MIN_POSITIVE,
        1.0e-40,
        -1.0e-40,
        3.4e38,
        1.0e10,
        -1.0e10,
        f32::EPSILON,
    ]
}

#[test]
fn classification_matches_std() {
    for &x in samples().iter() {
        let b = x.to_bits();
        assert_eq!(bits::is_nan(b), x.is_nan(), "is_nan on {x}");
        assert_eq!(bits::is_finite(b), x.is_finite(), "is_finite on {x}");
    }
}

#[test]
fn abs_bits_matches_std() {
    for &x in samples().iter() {
        let b = x.to_bits();
        assert_eq!(bits::abs_bits(b), x.abs().to_bits(), "abs on {x}");
    }
}

#[test]
fn ieee_eq_matches_std() {
    for &x in samples().iter() {
        for &y in samples().iter() {
            let r = approx::ieee_eq(x.to_bits(), y.to_bits());
            assert_eq!(r, x == y, "ieee_eq on {x}, {y}");
        }
    }
}

#[test]
fn ieee_le_matches_std() {
    for &x in samples().iter() {
        for &y in samples().iter() {
            let r = approx::ieee_le(x.to_bits(), y.to_bits());
            assert_eq!(r, x <= y, "ieee_le on {x}, {y}");
        }
    }
}

#[test]
fn max_abs_picks_by_strict_comparison() {
    for &x in samples().iter() {
        for &y in samples().iter() {
            let abs_x = x.abs();
            let abs_y = y.abs();
            // abs_x is picked only when it compares strictly greater,
            // so a NaN on either side picks abs_y.
            let expected = if abs_x > abs_y { abs_x } else { abs_y };
            let r = approx::max_abs_bits(x.to_bits(), y.to_bits());
            assert_eq!(r, expected.to_bits(), "max_abs on {x}, {y}");
        }
    }
}

#[test]
fn zeros_are_ieee_equal_but_ordered_by_total_order() {
    let pz = 0.0f32.to_bits();
    let nz = (-0.0f32).to_bits();
    assert!(approx::ieee_eq(pz, nz));
    assert!(approx::ieee_eq(nz, pz));
    assert!(approx::ieee_le(pz, nz));
    assert!(approx::ieee_le(nz, pz));
    assert_eq!(order::safe_cmp(nz, pz), std::cmp::Ordering::Less);
}

#[test]
fn nan_is_equal_to_nothing() {
    let nan = f32::NAN.to_bits();
    assert!(!approx::ieee_eq(nan, nan));
    assert!(!approx::ieee_le(nan, nan));
    assert!(!approx::ieee_le(nan, 1.0f32.to_bits()));
    assert!(!approx::ieee_le(1.0f32.to_bits(), nan));
}
