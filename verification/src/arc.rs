//! Decisions taken by the circular-arc routines.
//!
//! An arc lives in a local frame: a center, two unit axes spanning its
//! plane, a radius, and an angular range `[start_angle, end_angle]` measured
//! from the first axis. Its routines transform queries into that frame and
//! then branch on tolerance comparisons: whether an angle lies in range,
//! which endpoint a query snaps to, which candidate roots of the circle
//! quadratic survive filtering, and how two circles in one plane are
//! classified (concentric, tangent, separate, nested, crossing). The
//! functions here fix each of those decisions for every combination of the
//! observed comparisons.

use vstd::prelude::*;

use crate::BgcError;

verus! {

/// Whether an angle counts as lying in the arc's angular range: within the
/// calculation tolerance of either bound, or between the bounds.
pub open spec fn param_in_range(
    near_start: bool,
    near_end: bool,
    below_start: bool,
    beyond_end: bool,
) -> bool {
    near_start || near_end || (!below_start && !beyond_end)
}

/// Decides whether an angle lies in the arc's angular range.
///
/// The caller measures `near_start` and `near_end` as the angle falling
/// within the calculation tolerance of the range's bounds, and
/// `below_start` / `beyond_end` as the angle lying strictly outside them.
pub fn is_param_in_range_case(
    near_start: bool,
    near_end: bool,
    below_start: bool,
    beyond_end: bool,
) -> (in_range: bool)
    ensures
        in_range == param_in_range(near_start, near_end, below_start, beyond_end),
{
    if near_start || near_end {
        true
    } else if below_start || beyond_end {
        false
    } else {
        true
    }
}

/// Where on an arc a closest-point query is answered.
#[derive(Debug, Clone, Copy, PartialEq, Eq, Structural)]
pub enum ArcSite {
    /// The answer is the arc's start point, evaluated at the start angle.
    AtStart,
    /// The answer is the arc's end point, evaluated at the end angle.
    AtEnd,
    /// The answer is the radial projection onto the circle, carried back to
    /// world coordinates.
    OnCircle,
}

/// Where the closest point on an arc to a query point lies: the radial
/// projection onto the full circle when the query is extended or the
/// projected angle lies in range, else the nearer endpoint. A tie between
/// the two endpoint distances snaps to the end point.
pub open spec fn closest_point_site(
    extends: bool,
    angle_in_range: bool,
    nearer_start: bool,
) -> ArcSite {
    if extends || angle_in_range {
        ArcSite::OnCircle
    } else if nearer_start {
        ArcSite::AtStart
    } else {
        ArcSite::AtEnd
    }
}

/// Decides where the closest point on an arc to a query point lies.
///
/// The caller projects the query into the arc's plane, measures
/// `angle_in_range` with [`is_param_in_range_case`] on the projection's
/// angle, and measures `nearer_start` as the projected query lying strictly
/// closer to the start point than to the end point.
pub fn closest_point_case(
    extends: bool,
    angle_in_range: bool,
    nearer_start: bool,
) -> (site: ArcSite)
    ensures
        site == closest_point_site(extends, angle_in_range, nearer_start),
        site is OnCircle <==> extends || angle_in_range,
{
    if extends || angle_in_range {
        ArcSite::OnCircle
    } else if nearer_start {
        ArcSite::AtStart
    } else {
        ArcSite::AtEnd
    }
}

/// Whether a point counts as lying on the arc: it coincides with an
/// endpoint within the point tolerance, or its closest point on the arc was
/// found and coincides with it.
pub open spec fn contains_verdict(
    at_start: bool,
    at_end: bool,
    closest_found: bool,
    closest_matches: bool,
) -> bool {
    at_start || at_end || (closest_found && closest_matches)
}

/// Decides whether a point lies on the arc.
///
/// The caller measures `at_start` / `at_end` as coincidence with the arc's
/// endpoints within the point tolerance, `closest_found` as the
/// closest-point computation having succeeded, and `closest_matches` as the
/// query coinciding with that closest point.
pub fn contains_case(
    at_start: bool,
    at_end: bool,
    closest_found: bool,
    closest_matches: bool,
) -> (contained: bool)
    ensures
        contained == contains_verdict(at_start, at_end, closest_found, closest_matches),
{
    if at_start || at_end {
        true
    } else if closest_found {
        closest_matches
    } else {
        false
    }
}

/// A point the arc's closest-point decision answers with always lies on the
/// arc: classifying the answer again accepts it. The premises name the
/// numeric facts that carry the boolean model from the first query to the
/// second: an endpoint snap answers with a stored endpoint, which coincides
/// with itself within the point tolerance; and the radial projection of a
/// point already on the circle at an in-range angle is that point again, so
/// its closest-point computation succeeds and reproduces it.
pub proof fn lemma_closest_point_is_contained(
    extends: bool,
    angle_in_range: bool,
    nearer_start: bool,
    at_start: bool,
    at_end: bool,
    closest_found: bool,
    closest_matches: bool,
)
    requires
        closest_point_site(extends, angle_in_range, nearer_start) is AtStart ==> at_start,
        closest_point_site(extends, angle_in_range, nearer_start) is AtEnd ==> at_end,
        closest_point_site(extends, angle_in_range, nearer_start) is OnCircle ==> closest_found
            && closest_matches,
    ensures
        contains_verdict(at_start, at_end, closest_found, closest_matches),
{
}

/// How an arc construction from three points ends, in evaluation order: the
/// two chord directions from the on-arc point being opposite within the
/// vector tolerance means the points are diametrically placed and the
/// perpendicular bisectors are parallel; a failed bisector intersection
/// leaves no center; otherwise the center, radius, frame and end angle are
/// derived.
pub open spec fn from_three_points_outcome(
    chords_opposite: bool,
    center_found: bool,
) -> Result<(), BgcError> {
    if chords_opposite {
        Err(BgcError::InvalidInput)
    } else if !center_found {
        Err(BgcError::InvalidInput)
    } else {
        Ok(())
    }
}

/// Decides how an arc construction from three points ends.
///
/// The caller measures `chords_opposite` as the unit directions from the
/// on-arc point towards the start and end points being opposite within the
/// vector tolerance, and `center_found` as the intersection of the two
/// perpendicular bisectors (both extended) having produced a point.
pub fn from_three_points_case(
    chords_opposite: bool,
    center_found: bool,
) -> (r: Result<(), BgcError>)
    ensures
        r == from_three_points_outcome(chords_opposite, center_found),
        r is Ok <==> !chords_opposite && center_found,
        r is Err ==> r == Err::<(), BgcError>(BgcError::InvalidInput),
{
    if chords_opposite {
        Err(BgcError::InvalidInput)
    } else if !center_found {
        Err(BgcError::InvalidInput)
    } else {
        Ok(())
    }
}

/// Which of the two candidate points of a chord computation survive
/// filtering.
#[derive(Debug, Clone, Copy, PartialEq, Eq, Structural)]
pub enum ChordHits {
    /// Only the first candidate survives.
    FirstOnly,
    /// Only the second candidate survives.
    SecondOnly,
    /// Both candidates survive, in root order.
    Both,
}

/// Whether the first root of the circle quadratic is kept: its angle must
/// lie in the arc's range, and without extension the point must lie on the
/// query segment.
pub open spec fn first_root_kept(
    extends: bool,
    angle_in_range: bool,
    on_segment: bool,
) -> bool {
    angle_in_range && (extends || on_segment)
}

/// Whether the second root of the circle quadratic is kept: it must not
/// coincide with the first (a repeated root yields one point), its angle
/// must lie in the arc's range, and without extension the point must lie on
/// the query segment.
pub open spec fn second_root_kept(
    roots_coincide: bool,
    extends: bool,
    angle_in_range: bool,
    on_segment: bool,
) -> bool {
    !roots_coincide && angle_in_range && (extends || on_segment)
}

/// How an in-plane arc-line intersection ends: the circle-line quadratic
/// must have real roots, and at least one of the two candidate points must
/// survive the angular-range and on-segment filters.
pub open spec fn intersect_with_line_in_local_outcome(
    roots_found: bool,
    extends: bool,
    first_angle_in_range: bool,
    first_on_segment: bool,
    second_angle_in_range: bool,
    second_on_segment: bool,
    roots_coincide: bool,
) -> Result<ChordHits, BgcError> {
    if !roots_found {
        Err(BgcError::InvalidInput)
    } else {
        let keep_first = first_root_kept(extends, first_angle_in_range, first_on_segment);
        let keep_second = second_root_kept(
            roots_coincide,
            extends,
            second_angle_in_range,
            second_on_segment,
        );
        if keep_first && keep_second {
            Ok(ChordHits::Both)
        } else if keep_first {
            Ok(ChordHits::FirstOnly)
        } else if keep_second {
            Ok(ChordHits::SecondOnly)
        } else {
            Err(BgcError::InvalidInput)
        }
    }
}

/// Decides how an arc-line intersection solved in the arc's local frame
/// ends.
///
/// The caller solves the circle-line quadratic (`roots_found` records
/// whether it had real roots; any solver failure is reported as an invalid
/// input here), measures each candidate's angle with
/// [`is_param_in_range_case`], measures `*_on_segment` as the candidate
/// lying on the unextended query segment, and `roots_coincide` as the two
/// candidates coinciding within the point tolerance.
pub fn intersect_with_line_in_local_case(
    roots_found: bool,
    extends: bool,
    first_angle_in_range: bool,
    first_on_segment: bool,
    second_angle_in_range: bool,
    second_on_segment: bool,
    roots_coincide: bool,
) -> (r: Result<ChordHits, BgcError>)
    ensures
        r == intersect_with_line_in_local_outcome(
            roots_found,
            extends,
            first_angle_in_range,
            first_on_segment,
            second_angle_in_range,
            second_on_segment,
            roots_coincide,
        ),
        r is Err ==> r == Err::<ChordHits, BgcError>(BgcError::InvalidInput),
        r is Ok ==> roots_found,
{
    if !roots_found {
        return Err(BgcError::InvalidInput);
    }
    let keep_first = first_angle_in_range && (extends || first_on_segment);
    let keep_second = !roots_coincide && second_angle_in_range && (extends || second_on_segment);
    if keep_first && keep_second {
        Ok(ChordHits::Both)
    } else if keep_first {
        Ok(ChordHits::FirstOnly)
    } else if keep_second {
        Ok(ChordHits::SecondOnly)
    } else {
        Err(BgcError::InvalidInput)
    }
}

/// Which route an arc-line intersection takes.
#[derive(Debug, Clone, Copy, PartialEq, Eq, Structural)]
pub enum ArcLineRoute {
    /// The line lies in the arc's plane: transform it to the local frame and
    /// solve the circle-line quadratic there.
    InPlane,
    /// The line pierces the arc's plane in a single point that lies on the
    /// arc: that point is the answer.
    Pierce,
}

/// How an arc-line intersection request ends, in evaluation order: a line
/// parallel to the arc's containing plane either lies in that plane and is
/// solved locally, or misses the arc entirely; a line not parallel to the
/// plane pierces it in one point, which is kept only if it lies on the arc.
pub open spec fn intersect_with_line_outcome(
    parallel_to_plane: bool,
    start_in_plane: bool,
    pierce_on_arc: bool,
) -> Result<ArcLineRoute, BgcError> {
    if parallel_to_plane {
        if start_in_plane {
            Ok(ArcLineRoute::InPlane)
        } else {
            Err(BgcError::InvalidInput)
        }
    } else {
        if pierce_on_arc {
            Ok(ArcLineRoute::Pierce)
        } else {
            Err(BgcError::InvalidInput)
        }
    }
}

/// Decides how an arc-line intersection request ends.
///
/// The caller measures `parallel_to_plane` with the line-plane parallelism
/// test against the arc's containing plane, `start_in_plane` as that plane
/// containing the line's start point within the point tolerance, and —
/// once the piercing point of a non-parallel line is computed —
/// `pierce_on_arc` as the arc containing that point. The in-plane route
/// still filters its candidates with
/// [`intersect_with_line_in_local_case`].
pub fn intersect_with_line_case(
    parallel_to_plane: bool,
    start_in_plane: bool,
    pierce_on_arc: bool,
) -> (r: Result<ArcLineRoute, BgcError>)
    ensures
        r == intersect_with_line_outcome(parallel_to_plane, start_in_plane, pierce_on_arc),
        r == Ok::<ArcLineRoute, BgcError>(ArcLineRoute::InPlane) <==> parallel_to_plane
            && start_in_plane,
        r == Ok::<ArcLineRoute, BgcError>(ArcLineRoute::Pierce) <==> !parallel_to_plane
            && pierce_on_arc,
        r is Err ==> r == Err::<ArcLineRoute, BgcError>(BgcError::InvalidInput),
{
    if parallel_to_plane {
        if start_in_plane {
            Ok(ArcLineRoute::InPlane)
        } else {
            Err(BgcError::InvalidInput)
        }
    } else {
        if pierce_on_arc {
            Ok(ArcLineRoute::Pierce)
        } else {
            Err(BgcError::InvalidInput)
        }
    }
}

/// How an arc-arc intersection request ends, in evaluation order: arcs in
/// skew containing planes are a recognized but unhandled configuration;
/// parallel but non-coplanar planes never meet; coplanar arcs are solved as
/// a circle-circle intersection in this arc's local frame.
pub open spec fn intersect_with_arc_outcome(
    planes_parallel: bool,
    planes_coplanar: bool,
) -> Result<(), BgcError> {
    if !planes_parallel {
        Err(BgcError::NotImplemented)
    } else if !planes_coplanar {
        Err(BgcError::InvalidInput)
    } else {
        Ok(())
    }
}

/// Decides how an arc-arc intersection request ends.
///
/// The caller measures `planes_parallel` and `planes_coplanar` on the two
/// arcs' containing planes with the plane predicates. An accepted request
/// proceeds to [`intersect_with_circle_in_local_case`] with the other arc's
/// center carried into this arc's frame.
pub fn intersect_with_arc_case(
    planes_parallel: bool,
    planes_coplanar: bool,
) -> (r: Result<(), BgcError>)
    ensures
        r == intersect_with_arc_outcome(planes_parallel, planes_coplanar),
        r == Err::<(), BgcError>(BgcError::NotImplemented) <==> !planes_parallel,
        r == Err::<(), BgcError>(BgcError::InvalidInput) <==> planes_parallel
            && !planes_coplanar,
        r is Ok <==> planes_parallel && planes_coplanar,
{
    if !planes_parallel {
        Err(BgcError::NotImplemented)
    } else if !planes_coplanar {
        Err(BgcError::InvalidInput)
    } else {
        Ok(())
    }
}

/// How an arc-plane intersection request ends, in evaluation order: a plane
/// parallel to the arc's containing plane never crosses the arc; the
/// intersection line of the two planes must cut the circle (real roots of
/// the circle-line quadratic); and at least one candidate must survive —
/// without extension each candidate must lie on the arc, and a repeated
/// root yields a single candidate.
pub open spec fn intersect_with_plane_outcome(
    planes_parallel: bool,
    roots_found: bool,
    extends: bool,
    first_on_arc: bool,
    second_on_arc: bool,
    points_coincide: bool,
) -> Result<ChordHits, BgcError> {
    if planes_parallel {
        Err(BgcError::InvalidInput)
    } else if !roots_found {
        Err(BgcError::InvalidInput)
    } else {
        let keep_first = extends || first_on_arc;
        let keep_second = !points_coincide && (extends || second_on_arc);
        if keep_first && keep_second {
            Ok(ChordHits::Both)
        } else if keep_first {
            Ok(ChordHits::FirstOnly)
        } else if keep_second {
            Ok(ChordHits::SecondOnly)
        } else {
            Err(BgcError::InvalidInput)
        }
    }
}

/// Decides how an arc-plane intersection request ends.
///
/// The caller intersects the two planes, carries the resulting line into
/// the arc's frame and solves the circle-line quadratic (`roots_found`
/// records real roots). It measures `first_on_arc` / `second_on_arc` as the
/// arc containing each candidate without extension, and `points_coincide`
/// as the two candidates coinciding within the point tolerance.
pub fn intersect_with_plane_case(
    planes_parallel: bool,
    roots_found: bool,
    extends: bool,
    first_on_arc: bool,
    second_on_arc: bool,
    points_coincide: bool,
) -> (r: Result<ChordHits, BgcError>)
    ensures
        r == intersect_with_plane_outcome(
            planes_parallel,
            roots_found,
            extends,
            first_on_arc,
            second_on_arc,
            points_coincide,
        ),
        r is Err ==> r == Err::<ChordHits, BgcError>(BgcError::InvalidInput),
        extends && !planes_parallel && roots_found ==> r == Ok::<ChordHits, BgcError>(
            if points_coincide {
                ChordHits::FirstOnly
            } else {
                ChordHits::Both
            },
        ),
{
    if planes_parallel {
        return Err(BgcError::InvalidInput);
    }
    if !roots_found {
        return Err(BgcError::InvalidInput);
    }
    let keep_first = extends || first_on_arc;
    let keep_second = !points_coincide && (extends || second_on_arc);
    if keep_first && keep_second {
        Ok(ChordHits::Both)
    } else if keep_first {
        Ok(ChordHits::FirstOnly)
    } else if keep_second {
        Ok(ChordHits::SecondOnly)
    } else {
        Err(BgcError::InvalidInput)
    }
}

/// How two crossing circles in one plane are solved.
#[derive(Debug, Clone, Copy, PartialEq, Eq, Structural)]
pub enum CircleCrossing {
    /// The centers share their x-coordinate, so the radical line is
    /// horizontal: solve the common y, then the one or two x values.
    Horizontal { single: bool },
    /// The centers share their y-coordinate, so the radical line is
    /// vertical: solve the common x, then the one or two y values.
    Vertical { single: bool },
    /// General position: solve the quadratic the radical line implies for
    /// one coordinate and back-substitute for the other.
    Oblique { single: bool },
}

/// How a circle-circle intersection in the arc's local plane ends, in
/// evaluation order: coincident centers admit no radical line; tangency
/// (external, or internal either way) is a recognized but unhandled
/// configuration; fully separate circles, and one circle nested inside the
/// other, never meet; otherwise the circles cross and the branch is picked
/// by the centers' shared coordinate, with the oblique branch still needing
/// real roots.
pub open spec fn intersect_with_circle_in_local_outcome(
    centers_coincide: bool,
    tangent_outer: bool,
    tangent_inner_first: bool,
    tangent_inner_second: bool,
    separated: bool,
    radii_differ: bool,
    first_encloses_second: bool,
    second_encloses_first: bool,
    centers_share_x: bool,
    centers_share_y: bool,
    oblique_roots_found: bool,
    single_crossing: bool,
) -> Result<CircleCrossing, BgcError> {
    if centers_coincide {
        Err(BgcError::InvalidInput)
    } else if tangent_outer || tangent_inner_first || tangent_inner_second {
        Err(BgcError::NotImplemented)
    } else if separated {
        Err(BgcError::InvalidInput)
    } else if radii_differ && (first_encloses_second || second_encloses_first) {
        Err(BgcError::InvalidInput)
    } else if centers_share_x {
        Ok(CircleCrossing::Horizontal { single: single_crossing })
    } else if centers_share_y {
        Ok(CircleCrossing::Vertical { single: single_crossing })
    } else if !oblique_roots_found {
        Err(BgcError::InvalidInput)
    } else {
        Ok(CircleCrossing::Oblique { single: single_crossing })
    }
}

/// Decides how a circle-circle intersection in the arc's local plane ends.
///
/// With `d` the distance between the centers, `r1` this circle's radius and
/// `r2` the other's, the caller measures `centers_coincide` as the centers
/// within the point tolerance of each other, `tangent_outer` as
/// `|d - (r1 + r2)|` within the point tolerance, `tangent_inner_first` /
/// `tangent_inner_second` as `|r1 - (d + r2)|` / `|r2 - (d + r1)|` within
/// it, `separated` as `d > r1 + r2`, `radii_differ` as `|r1 - r2|` beyond
/// it, and the enclosure flags as `r1 > r2 + d` / `r2 > r1 + d`. The shared
/// coordinate flags compare the centers' coordinates within the point
/// tolerance; `oblique_roots_found` records real roots of the radical-line
/// quadratic, and `single_crossing` records the branch's one-point test:
/// the other coordinate within the point tolerance of zero on the axis
/// branches, the two roots within the calculation tolerance of each other
/// on the oblique branch.
pub fn intersect_with_circle_in_local_case(
    centers_coincide: bool,
    tangent_outer: bool,
    tangent_inner_first: bool,
    tangent_inner_second: bool,
    separated: bool,
    radii_differ: bool,
    first_encloses_second: bool,
    second_encloses_first: bool,
    centers_share_x: bool,
    centers_share_y: bool,
    oblique_roots_found: bool,
    single_crossing: bool,
) -> (r: Result<CircleCrossing, BgcError>)
    ensures
        r == intersect_with_circle_in_local_outcome(
            centers_coincide,
            tangent_outer,
            tangent_inner_first,
            tangent_inner_second,
            separated,
            radii_differ,
            first_encloses_second,
            second_encloses_first,
            centers_share_x,
            centers_share_y,
            oblique_roots_found,
            single_crossing,
        ),
        centers_coincide ==> r == Err::<CircleCrossing, BgcError>(BgcError::InvalidInput),
        r == Err::<CircleCrossing, BgcError>(BgcError::NotImplemented) <==> !centers_coincide
            && (tangent_outer || tangent_inner_first || tangent_inner_second),
        r is Ok ==> !centers_coincide && !tangent_outer && !tangent_inner_first
            && !tangent_inner_second && !separated,
{
    if centers_coincide {
        Err(BgcError::InvalidInput)
    } else if tangent_outer || tangent_inner_first || tangent_inner_second {
        Err(BgcError::NotImplemented)
    } else if separated {
        Err(BgcError::InvalidInput)
    } else if radii_differ && (first_encloses_second || second_encloses_first) {
        Err(BgcError::InvalidInput)
    } else if centers_share_x {
        Ok(CircleCrossing::Horizontal { single: single_crossing })
    } else if centers_share_y {
        Ok(CircleCrossing::Vertical { single: single_crossing })
    } else if !oblique_roots_found {
        Err(BgcError::InvalidInput)
    } else {
        Ok(CircleCrossing::Oblique { single: single_crossing })
    }
}

} // verus!
