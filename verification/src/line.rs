//! Decisions taken by the line (segment) routines.
//!
//! A line is a finite segment `{start_point, end_point}` whose extension is
//! controlled per call by an `extends` flag. Its routines measure point
//! coincidences, projections and denominators against the caller's
//! tolerances; the functions here fix which branch each routine takes for
//! every combination of those comparisons: which endpoint shortcut fires,
//! when a query is clamped to an endpoint, and which typed error an
//! intersection request reports.

use vstd::prelude::*;

use crate::BgcError;

verus! {

/// Where on a segment a routine's answer lies.
#[derive(Debug, Clone, Copy, PartialEq, Eq, Structural)]
pub enum SegmentSite {
    /// The answer is the segment's start point, returned as stored.
    AtStart,
    /// The answer is the segment's end point, returned as stored.
    AtEnd,
    /// The answer is a point computed on the line, not a stored endpoint.
    Interior,
}

/// Where the closest-point projection lands, in evaluation order: a query
/// point coinciding with an endpoint is answered with that endpoint; an
/// unextended segment clamps a projection that falls off either end to the
/// nearer endpoint; everything else is the perpendicular foot itself.
pub open spec fn closest_point_site(
    coincides_start: bool,
    coincides_end: bool,
    extends: bool,
    falls_before_start: bool,
    falls_beyond_end: bool,
) -> SegmentSite {
    if coincides_start {
        SegmentSite::AtStart
    } else if coincides_end {
        SegmentSite::AtEnd
    } else if extends {
        SegmentSite::Interior
    } else if falls_before_start {
        SegmentSite::AtStart
    } else if falls_beyond_end {
        SegmentSite::AtEnd
    } else {
        SegmentSite::Interior
    }
}

/// Decides where the closest point on a segment to a query point lies.
///
/// The caller measures `coincides_start` and `coincides_end` as
/// point-coincidence within the point tolerance, `falls_before_start` as the
/// foot of the perpendicular lying behind the start (the direction from the
/// start towards the foot opposing the segment's direction), and
/// `falls_beyond_end` as the foot lying farther from the start than the
/// segment is long.
pub fn closest_point_case(
    coincides_start: bool,
    coincides_end: bool,
    extends: bool,
    falls_before_start: bool,
    falls_beyond_end: bool,
) -> (site: SegmentSite)
    ensures
        site == closest_point_site(
            coincides_start,
            coincides_end,
            extends,
            falls_before_start,
            falls_beyond_end,
        ),
        site is Interior <==> !coincides_start && !coincides_end && (extends || (
        !falls_before_start && !falls_beyond_end)),
{
    if coincides_start {
        SegmentSite::AtStart
    } else if coincides_end {
        SegmentSite::AtEnd
    } else if extends {
        SegmentSite::Interior
    } else if falls_before_start {
        SegmentSite::AtStart
    } else if falls_beyond_end {
        SegmentSite::AtEnd
    } else {
        SegmentSite::Interior
    }
}

/// Decides whether a point lies on a segment: either it coincides with an
/// endpoint within the point tolerance, or it coincides with its own closest
/// point on the segment.
pub fn is_on_case(
    coincides_start: bool,
    coincides_end: bool,
    closest_matches: bool,
) -> (on: bool)
    ensures
        on <==> coincides_start || coincides_end || closest_matches,
{
    coincides_start || coincides_end || closest_matches
}

/// How the walk to a given distance from the start ends, in evaluation
/// order: a distance within the point tolerance of zero answers with the
/// start, one within tolerance of the length with the end; an unextended
/// segment rejects a distance outside `[0, length]`; everything else is a
/// computed interior point.
pub open spec fn point_at_dist_outcome(
    dist_negligible: bool,
    dist_matches_length: bool,
    extends: bool,
    dist_negative: bool,
    dist_beyond_length: bool,
) -> Result<SegmentSite, BgcError> {
    if dist_negligible {
        Ok(SegmentSite::AtStart)
    } else if dist_matches_length {
        Ok(SegmentSite::AtEnd)
    } else if !extends && (dist_negative || dist_beyond_length) {
        Err(BgcError::InvalidInput)
    } else {
        Ok(SegmentSite::Interior)
    }
}

/// Decides how `point_at_dist` answers.
///
/// The caller measures `dist_negligible` as `|distance| < equal_point`,
/// `dist_matches_length` as `|length - distance| < equal_point`,
/// `dist_negative` as `distance < 0` and `dist_beyond_length` as
/// `length < distance`.
pub fn point_at_dist_case(
    dist_negligible: bool,
    dist_matches_length: bool,
    extends: bool,
    dist_negative: bool,
    dist_beyond_length: bool,
) -> (r: Result<SegmentSite, BgcError>)
    ensures
        r == point_at_dist_outcome(
            dist_negligible,
            dist_matches_length,
            extends,
            dist_negative,
            dist_beyond_length,
        ),
        r is Err <==> !dist_negligible && !dist_matches_length && !extends && (dist_negative
            || dist_beyond_length),
        r is Err ==> r == Err::<SegmentSite, BgcError>(BgcError::InvalidInput),
{
    if dist_negligible {
        Ok(SegmentSite::AtStart)
    } else if dist_matches_length {
        Ok(SegmentSite::AtEnd)
    } else if !extends && (dist_negative || dist_beyond_length) {
        Err(BgcError::InvalidInput)
    } else {
        Ok(SegmentSite::Interior)
    }
}

/// Decides whether a line counts as parallel to another. The projection of
/// both of this line's endpoints onto the other must point the same way
/// (`offset_dirs_match`), the two perpendicular offsets must agree within
/// the point tolerance (`offsets_match`), and the unit directions must
/// coincide either directly or with opposite sign.
pub fn is_parallel_case(
    offset_dirs_match: bool,
    offsets_match: bool,
    dirs_same: bool,
    dirs_opposite: bool,
) -> (parallel: bool)
    ensures
        parallel <==> offset_dirs_match && offsets_match && (dirs_same || dirs_opposite),
{
    offset_dirs_match && offsets_match && (dirs_same || dirs_opposite)
}

/// Decides whether a line is parallel to a plane: a degenerate segment
/// (coincident endpoints, so no direction) is never parallel; otherwise the
/// line is parallel exactly when the inner product of the plane's unit
/// normal with the line's direction is below the vector tolerance.
pub fn is_parallel_with_plane_case(
    degenerate: bool,
    normal_dot_negligible: bool,
) -> (parallel: bool)
    ensures
        parallel <==> !degenerate && normal_dot_negligible,
{
    !degenerate && normal_dot_negligible
}

/// How a line-plane intersection request ends, in evaluation order: an
/// endpoint already on the plane is the answer; a denominator within the
/// calculation tolerance of zero means the line is parallel to the plane;
/// a computed crossing that misses the (possibly extended) segment is
/// rejected; everything else is the computed crossing point.
pub open spec fn intersect_with_plane_outcome(
    start_on_plane: bool,
    end_on_plane: bool,
    denominator_negligible: bool,
    meets_segment: bool,
) -> Result<SegmentSite, BgcError> {
    if start_on_plane {
        Ok(SegmentSite::AtStart)
    } else if end_on_plane {
        Ok(SegmentSite::AtEnd)
    } else if denominator_negligible {
        Err(BgcError::MustBeNonZero)
    } else if !meets_segment {
        Err(BgcError::InvalidInput)
    } else {
        Ok(SegmentSite::Interior)
    }
}

/// Decides how a line-plane intersection request ends.
///
/// The caller measures `start_on_plane` and `end_on_plane` as the plane
/// containing the endpoint within the point tolerance,
/// `denominator_negligible` as the plane equation's denominator along the
/// line falling below the calculation tolerance, and `meets_segment` as the
/// computed crossing point lying on the segment under the request's
/// `extends` flag.
pub fn intersect_with_plane_case(
    start_on_plane: bool,
    end_on_plane: bool,
    denominator_negligible: bool,
    meets_segment: bool,
) -> (r: Result<SegmentSite, BgcError>)
    ensures
        r == intersect_with_plane_outcome(
            start_on_plane,
            end_on_plane,
            denominator_negligible,
            meets_segment,
        ),
        r == Err::<SegmentSite, BgcError>(BgcError::MustBeNonZero) <==> !start_on_plane
            && !end_on_plane && denominator_negligible,
        r == Err::<SegmentSite, BgcError>(BgcError::InvalidInput) <==> !start_on_plane
            && !end_on_plane && !denominator_negligible && !meets_segment,
{
    if start_on_plane {
        Ok(SegmentSite::AtStart)
    } else if end_on_plane {
        Ok(SegmentSite::AtEnd)
    } else if denominator_negligible {
        Err(BgcError::MustBeNonZero)
    } else if !meets_segment {
        Err(BgcError::InvalidInput)
    } else {
        Ok(SegmentSite::Interior)
    }
}

/// How a line-line intersection request ends, in evaluation order: an
/// endpoint of this line coinciding with an endpoint of the other is the
/// answer; parallel lines have no single crossing; a closest-approach
/// candidate falling off either (unextended) segment is rejected; two
/// candidates that fail to coincide mean the lines are skew; otherwise the
/// coincidence point is the answer.
pub open spec fn intersect_with_line_outcome(
    start_meets_start: bool,
    start_meets_end: bool,
    end_meets_start: bool,
    end_meets_end: bool,
    parallel: bool,
    candidate_on_self: bool,
    candidate_on_other: bool,
    candidates_coincide: bool,
) -> Result<SegmentSite, BgcError> {
    if start_meets_start || start_meets_end {
        Ok(SegmentSite::AtStart)
    } else if end_meets_start || end_meets_end {
        Ok(SegmentSite::AtEnd)
    } else if parallel {
        Err(BgcError::MustBeNonZero)
    } else if !candidate_on_self || !candidate_on_other {
        Err(BgcError::InvalidInput)
    } else if candidates_coincide {
        Ok(SegmentSite::Interior)
    } else {
        Err(BgcError::InvalidInput)
    }
}

/// Decides how a line-line intersection request ends.
///
/// The four `*_meets_*` flags record coincidence, within the point
/// tolerance, of this line's start/end with the other line's start/end.
/// `parallel` is the full parallelism test of [`is_parallel_case`].
/// `candidate_on_self` and `candidate_on_other` record whether the two
/// closest-approach candidate points lie on their respective segments under
/// the request's `extends` flag, and `candidates_coincide` whether those two
/// candidates agree within the point tolerance (skew lines produce two
/// distinct candidates).
pub fn intersect_with_line_case(
    start_meets_start: bool,
    start_meets_end: bool,
    end_meets_start: bool,
    end_meets_end: bool,
    parallel: bool,
    candidate_on_self: bool,
    candidate_on_other: bool,
    candidates_coincide: bool,
) -> (r: Result<SegmentSite, BgcError>)
    ensures
        r == intersect_with_line_outcome(
            start_meets_start,
            start_meets_end,
            end_meets_start,
            end_meets_end,
            parallel,
            candidate_on_self,
            candidate_on_other,
            candidates_coincide,
        ),
        r == Err::<SegmentSite, BgcError>(BgcError::MustBeNonZero) <==> !start_meets_start
            && !start_meets_end && !end_meets_start && !end_meets_end && parallel,
        r == Ok::<SegmentSite, BgcError>(SegmentSite::Interior) <==> !start_meets_start
            && !start_meets_end && !end_meets_start && !end_meets_end && !parallel
            && candidate_on_self && candidate_on_other && candidates_coincide,
{
    if start_meets_start || start_meets_end {
        Ok(SegmentSite::AtStart)
    } else if end_meets_start || end_meets_end {
        Ok(SegmentSite::AtEnd)
    } else if parallel {
        Err(BgcError::MustBeNonZero)
    } else if !candidate_on_self || !candidate_on_other {
        Err(BgcError::InvalidInput)
    } else if candidates_coincide {
        Ok(SegmentSite::Interior)
    } else {
        Err(BgcError::InvalidInput)
    }
}

/// Swapping the two lines' roles in an intersection request swaps the
/// observed flags: the cross-coincidences trade places, as do the two
/// on-segment flags, while endpoint-to-same-endpoint coincidence,
/// parallelism and candidate coincidence are symmetric measurements. Under
/// that swap the decision succeeds for one line exactly when it succeeds for
/// the other, and a failing request fails with the same error either way.
/// (The returned sites may differ, as each line answers with a point of its
/// own; that those points coincide within the point tolerance is exactly
/// what the coincidence flags record.)
pub proof fn lemma_intersect_with_line_symmetric(
    start_meets_start: bool,
    start_meets_end: bool,
    end_meets_start: bool,
    end_meets_end: bool,
    parallel: bool,
    candidate_on_self: bool,
    candidate_on_other: bool,
    candidates_coincide: bool,
)
    ensures
        (intersect_with_line_outcome(
            start_meets_start,
            start_meets_end,
            end_meets_start,
            end_meets_end,
            parallel,
            candidate_on_self,
            candidate_on_other,
            candidates_coincide,
        ) is Ok) == (intersect_with_line_outcome(
            start_meets_start,
            end_meets_start,
            start_meets_end,
            end_meets_end,
            parallel,
            candidate_on_other,
            candidate_on_self,
            candidates_coincide,
        ) is Ok),
        (intersect_with_line_outcome(
            start_meets_start,
            start_meets_end,
            end_meets_start,
            end_meets_end,
            parallel,
            candidate_on_self,
            candidate_on_other,
            candidates_coincide,
        ) is Err) ==> intersect_with_line_outcome(
            start_meets_start,
            start_meets_end,
            end_meets_start,
            end_meets_end,
            parallel,
            candidate_on_self,
            candidate_on_other,
            candidates_coincide,
        ) == intersect_with_line_outcome(
            start_meets_start,
            end_meets_start,
            start_meets_end,
            end_meets_end,
            parallel,
            candidate_on_other,
            candidate_on_self,
            candidates_coincide,
        ),
{
}

} // verus!
