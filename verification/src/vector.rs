//! Decisions taken by the vector routines.
//!
//! Vector predicates compare lengths, inner products and angles against the
//! caller's tolerances. The functions here fix the parallelism verdict and
//! the normalization of a raw angle into `[0, 2*pi)` for every combination
//! of those comparisons.

use vstd::prelude::*;

verus! {

/// Decides whether two vectors count as parallel: a zero-length operand
/// (length below the vector tolerance, so no direction) is never parallel
/// to anything; otherwise the vectors are parallel exactly when the
/// absolute inner product of their unit directions is within the vector
/// tolerance of one.
pub fn is_parallel_to_case(
    self_degenerate: bool,
    other_degenerate: bool,
    aligned_within_tolerance: bool,
) -> (parallel: bool)
    ensures
        parallel <==> !self_degenerate && !other_degenerate && aligned_within_tolerance,
{
    !self_degenerate && !other_degenerate && aligned_within_tolerance
}

/// How a raw angle is normalized into `[0, 2*pi)`.
#[derive(Debug, Clone, Copy, PartialEq, Eq, Structural)]
pub enum AngleNormalization {
    /// The angle is reported as exactly zero.
    Zero,
    /// The angle was negative and one full turn is added.
    Wrapped,
    /// The angle is already in range and is reported as computed.
    Unchanged,
}

/// How an angle measured in the plane is normalized, in evaluation order: a
/// vector whose planar components both fall below the vector tolerance has
/// no direction and answers zero; an angle within the calculation tolerance
/// of zero is snapped to exactly zero; a negative angle is wrapped by one
/// full turn; everything else is already in `[0, 2*pi)`.
pub open spec fn angle_normalization(
    components_negligible: bool,
    angle_negligible: bool,
    angle_negative: bool,
) -> AngleNormalization {
    if components_negligible {
        AngleNormalization::Zero
    } else if angle_negligible {
        AngleNormalization::Zero
    } else if angle_negative {
        AngleNormalization::Wrapped
    } else {
        AngleNormalization::Unchanged
    }
}

/// Decides how a raw angle is normalized into `[0, 2*pi)`.
///
/// The caller measures `components_negligible` as both planar components
/// falling below the vector tolerance, `angle_negligible` as the raw angle
/// falling within the calculation tolerance of zero, and `angle_negative`
/// as the raw angle being negative. A normalization without the zero snaps
/// passes `false` for the first two flags.
pub fn angle_xy_case(
    components_negligible: bool,
    angle_negligible: bool,
    angle_negative: bool,
) -> (n: AngleNormalization)
    ensures
        n == angle_normalization(components_negligible, angle_negligible, angle_negative),
        n is Wrapped <==> !components_negligible && !angle_negligible && angle_negative,
{
    if components_negligible {
        AngleNormalization::Zero
    } else if angle_negligible {
        AngleNormalization::Zero
    } else if angle_negative {
        AngleNormalization::Wrapped
    } else {
        AngleNormalization::Unchanged
    }
}

} // verus!
