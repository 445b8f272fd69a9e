//! Decision core of a tolerance-aware geometric kernel.
//!
//! Every geometric routine of the kernel — closest-point projection,
//! line/plane/arc intersection, the quadratic solver — follows the same
//! shape: it measures a handful of scalar quantities, compares them against
//! the caller's tolerances, and then *decides*: which degenerate case holds,
//! which branch to take, which typed error to report, which candidate points
//! to keep. This crate states and verifies those decisions. Each routine's
//! branching is a function from the observed comparison outcomes (plain
//! booleans) to the routine's outcome, with a contract that pins the outcome
//! down for every combination of inputs. The numeric layer that produces the
//! comparison outcomes lives outside the verified core and consults these
//! functions for every decision it takes.

use vstd::prelude::*;

pub mod arc;
pub mod line;
pub mod math;
pub mod matrix3d;
pub mod plane;
pub mod vector;

verus! {

/// Typed failure reported by the geometric routines.
///
/// `InvalidInput` covers geometrically degenerate or out-of-range requests,
/// `MustBeNonZero` a required denominator that vanished, `MustBeNoNegative`
/// a discriminant that had to be non-negative, and `NotImplemented` a
/// recognized but unhandled configuration (tangent circles, skew arc pairs).
#[derive(Debug, Clone, Copy, PartialEq, Eq, Structural)]
pub enum BgcError {
    InvalidInput,
    OutOfRange,
    MustBePositive,
    MustBeNoNegative,
    MustBeNonZero,
    Deivergence,
    Empty,
    NotImplemented,
}

impl BgcError {
    /// A short description of the failure, one fixed phrase per variant.
    pub fn message(&self) -> (r: &'static str)
        ensures
            self is InvalidInput ==> r@ == "invalid input"@,
            self is OutOfRange ==> r@ == "out of range"@,
            self is MustBePositive ==> r@ == "must be positive"@,
            self is MustBeNoNegative ==> r@ == "must be non negative"@,
            self is MustBeNonZero ==> r@ == "must be non zero"@,
            self is Deivergence ==> r@ == "deivergence"@,
            self is Empty ==> r@ == "empty"@,
            self is NotImplemented ==> r@ == "not implemented"@,
    {
        match self {
            BgcError::InvalidInput => "invalid input",
            BgcError::OutOfRange => "out of range",
            BgcError::MustBePositive => "must be positive",
            BgcError::MustBeNoNegative => "must be non negative",
            BgcError::MustBeNonZero => "must be non zero",
            BgcError::Deivergence => "deivergence",
            BgcError::Empty => "empty",
            BgcError::NotImplemented => "not implemented",
        }
    }
}

} // verus!
