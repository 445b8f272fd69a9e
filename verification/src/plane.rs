//! Decisions taken by the plane routines.
//!
//! A plane is stored in implicit form `Ax + By + Cz + D = 0` with a unit
//! normal by construction. Its predicates and its plane-plane intersection
//! compare a cross product, an offset difference and a determinant against
//! the caller's tolerances; the functions here fix the outcome for every
//! combination of those comparisons.

use vstd::prelude::*;

use crate::BgcError;

verus! {

/// Decides whether two planes are coplanar: their normals must be parallel
/// and their offsets `D` must agree within the point tolerance.
pub fn is_coplanar_with_case(
    normals_parallel: bool,
    offsets_match: bool,
) -> (coplanar: bool)
    ensures
        coplanar <==> normals_parallel && offsets_match,
{
    normals_parallel && offsets_match
}

/// How a plane-plane intersection request ends, in evaluation order: a
/// cross product of the two normals below the vector tolerance means the
/// planes are parallel or coplanar and no unique line exists; a vanishing
/// determinant of the three-plane linear system leaves no solvable point;
/// otherwise the request yields the line through the solved point along the
/// cross-product direction.
pub open spec fn intersect_with_plane_outcome(
    normals_cross_negligible: bool,
    determinant_negligible: bool,
) -> Result<(), BgcError> {
    if normals_cross_negligible {
        Err(BgcError::InvalidInput)
    } else if determinant_negligible {
        Err(BgcError::InvalidInput)
    } else {
        Ok(())
    }
}

/// Decides how a plane-plane intersection request ends.
///
/// The caller measures `normals_cross_negligible` as the length of the
/// normals' cross product falling below the vector tolerance, and
/// `determinant_negligible` as the determinant of the linear system — the
/// two planes plus an auxiliary plane through the origin perpendicular to
/// the intersection direction — falling within the calculation tolerance.
pub fn intersect_with_plane_case(
    normals_cross_negligible: bool,
    determinant_negligible: bool,
) -> (r: Result<(), BgcError>)
    ensures
        r == intersect_with_plane_outcome(normals_cross_negligible, determinant_negligible),
        r is Ok <==> !normals_cross_negligible && !determinant_negligible,
        r is Err ==> r == Err::<(), BgcError>(BgcError::InvalidInput),
{
    if normals_cross_negligible {
        Err(BgcError::InvalidInput)
    } else if determinant_negligible {
        Err(BgcError::InvalidInput)
    } else {
        Ok(())
    }
}

} // verus!
