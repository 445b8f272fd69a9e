//! Decision taken by the quadratic-equation solver.
//!
//! The solver for `a*x^2 + b*x + c = 0` measures two scalars against the
//! calculation tolerance before any root is produced: the magnitude of the
//! leading coefficient `a`, and the discriminant `b^2 - 4*a*c`. A
//! discriminant within tolerance of zero is snapped to exactly zero, so that
//! a tangent configuration yields an exact repeated root instead of a
//! near-miss. The functions here fix, for every combination of those
//! comparisons, whether the solver answers with roots or with which error.

use vstd::prelude::*;

use crate::BgcError;

verus! {

/// Shape of the real roots the quadratic formula yields when it succeeds.
#[derive(Debug, Clone, Copy, PartialEq, Eq, Structural)]
pub enum QuadraticRoots {
    /// The discriminant was snapped to zero: both roots coincide.
    Repeated,
    /// The discriminant is positive beyond tolerance: two distinct real roots.
    Distinct,
}

/// How the quadratic solver ends, in evaluation order: a negligible leading
/// coefficient means the equation is not quadratic at all; then the
/// zero-snapped discriminant decides between a repeated root, no real root,
/// and two distinct roots.
pub open spec fn quadratic_equation_outcome(
    leading_negligible: bool,
    discriminant_negligible: bool,
    discriminant_negative: bool,
) -> Result<QuadraticRoots, BgcError> {
    if leading_negligible {
        Err(BgcError::InvalidInput)
    } else if discriminant_negligible {
        Ok(QuadraticRoots::Repeated)
    } else if discriminant_negative {
        Err(BgcError::MustBeNoNegative)
    } else {
        Ok(QuadraticRoots::Distinct)
    }
}

/// Decides how the quadratic solver ends.
///
/// The caller measures `leading_negligible` as `|a| <= calculation`,
/// `discriminant_negligible` as `|b^2 - 4*a*c| <= calculation`, and
/// `discriminant_negative` as `b^2 - 4*a*c < 0`, all against the calculation
/// tolerance it was handed.
pub fn quadratic_equation_case(
    leading_negligible: bool,
    discriminant_negligible: bool,
    discriminant_negative: bool,
) -> (r: Result<QuadraticRoots, BgcError>)
    ensures
        r == quadratic_equation_outcome(
            leading_negligible,
            discriminant_negligible,
            discriminant_negative,
        ),
        r == Err::<QuadraticRoots, BgcError>(BgcError::InvalidInput) <==> leading_negligible,
        r == Ok::<QuadraticRoots, BgcError>(QuadraticRoots::Repeated) <==> !leading_negligible
            && discriminant_negligible,
        r == Err::<QuadraticRoots, BgcError>(BgcError::MustBeNoNegative) <==> !leading_negligible
            && !discriminant_negligible && discriminant_negative,
        r == Ok::<QuadraticRoots, BgcError>(QuadraticRoots::Distinct) <==> !leading_negligible
            && !discriminant_negligible && !discriminant_negative,
{
    if leading_negligible {
        Err(BgcError::InvalidInput)
    } else if discriminant_negligible {
        Ok(QuadraticRoots::Repeated)
    } else if discriminant_negative {
        Err(BgcError::MustBeNoNegative)
    } else {
        Ok(QuadraticRoots::Distinct)
    }
}

} // verus!
