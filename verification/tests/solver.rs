//! The quadratic-solver decision, driven by flags measured in floating
//! point exactly as the numeric layer measures them.

use bgc::math::{quadratic_equation_case, QuadraticRoots};
use bgc::BgcError;

const TOLERANCE_CALCULATION: f64 = 1.0e-6;

/// Measures the three comparison flags of the solver for `a*x^2 + b*x + c`.
fn quadratic_flags(a: f64, b: f64, c: f64) -> (bool, bool, bool) {
    let leading_negligible = a.abs() <= TOLERANCE_CALCULATION;
    let discriminant = b * b - 4.0 * a * c;
    let discriminant_negligible = discriminant.abs() <= TOLERANCE_CALCULATION;
    let discriminant_negative = discriminant < 0.0;
    (leading_negligible, discriminant_negligible, discriminant_negative)
}

#[test]
fn quadratic_two_distinct_roots() {
    // Roots near 21.50 and -12.20; the decision sees a healthy positive
    // discriminant.
    let (ln, dn, neg) = quadratic_flags(1.0, -9.3, -262.3);
    assert_eq!(quadratic_equation_case(ln, dn, neg), Ok(QuadraticRoots::Distinct));

    let (ln, dn, neg) = quadratic_flags(12.3, 0.2, -10256.8);
    assert_eq!(quadratic_equation_case(ln, dn, neg), Ok(QuadraticRoots::Distinct));

    let (ln, dn, neg) = quadratic_flags(0.2, 9987.6, -16.4);
    assert_eq!(quadratic_equation_case(ln, dn, neg), Ok(QuadraticRoots::Distinct));
}

#[test]
fn quadratic_rejects_vanishing_leading_coefficient() {
    let (ln, dn, neg) = quadratic_flags(0.0, 2.0, 4.0);
    assert!(ln);
    assert_eq!(quadratic_equation_case(ln, dn, neg), Err(BgcError::InvalidInput));
}

#[test]
fn quadratic_rejects_negative_discriminant() {
    let (ln, dn, neg) = quadratic_flags(23.2, 18.5, 97.6);
    assert!(neg && !dn);
    assert_eq!(quadratic_equation_case(ln, dn, neg), Err(BgcError::MustBeNoNegative));
}

#[test]
fn quadratic_snaps_near_zero_discriminant() {
    // The discriminant comes out around -4.8e-7 in floating point: within
    // tolerance of zero, so it is snapped and the root is repeated (both
    // roots near 32.085) instead of the request failing.
    let (ln, dn, neg) = quadratic_flags(739.84, -47474.88, 761605.29);
    assert!(dn && neg);
    assert_eq!(quadratic_equation_case(ln, dn, neg), Ok(QuadraticRoots::Repeated));
}

#[test]
fn quadratic_exact_zero_discriminant() {
    let (ln, dn, neg) = quadratic_flags(1.0, 0.0, 0.0);
    assert_eq!(quadratic_equation_case(ln, dn, neg), Ok(QuadraticRoots::Repeated));
}
