//! The line-routine decisions, driven where it matters by flags measured in
//! floating point exactly as the numeric layer measures them.

use bgc::line::{
    closest_point_case, intersect_with_line_case, intersect_with_plane_case, is_on_case,
    is_parallel_case, is_parallel_with_plane_case, point_at_dist_case, SegmentSite,
};
use bgc::BgcError;

const TOLERANCE_POINT: f64 = 1.0e-4;

fn distance(p: [f64; 3], q: [f64; 3]) -> f64 {
    let dx = p[0] - q[0];
    let dy = p[1] - q[1];
    let dz = p[2] - q[2];
    (dx * dx + dy * dy + dz * dz).sqrt()
}

fn unit(v: [f64; 3]) -> [f64; 3] {
    let l = (v[0] * v[0] + v[1] * v[1] + v[2] * v[2]).sqrt();
    [v[0] / l, v[1] / l, v[2] / l]
}

fn dot(a: [f64; 3], b: [f64; 3]) -> f64 {
    a[0] * b[0] + a[1] * b[1] + a[2] * b[2]
}

#[test]
fn closest_point_endpoint_shortcuts() {
    assert_eq!(closest_point_case(true, false, false, false, false), SegmentSite::AtStart);
    assert_eq!(closest_point_case(false, true, false, false, false), SegmentSite::AtEnd);
    // A query coinciding with the start wins even if the end also matches.
    assert_eq!(closest_point_case(true, true, false, false, false), SegmentSite::AtStart);
}

#[test]
fn closest_point_clamps_unextended_segment() {
    assert_eq!(closest_point_case(false, false, false, true, false), SegmentSite::AtStart);
    assert_eq!(closest_point_case(false, false, false, false, true), SegmentSite::AtEnd);
    assert_eq!(closest_point_case(false, false, false, false, false), SegmentSite::Interior);
}

#[test]
fn closest_point_extended_never_clamps() {
    assert_eq!(closest_point_case(false, false, true, true, false), SegmentSite::Interior);
    assert_eq!(closest_point_case(false, false, true, false, true), SegmentSite::Interior);
}

#[test]
fn is_on_needs_a_match() {
    assert!(is_on_case(true, false, false));
    assert!(is_on_case(false, true, false));
    assert!(is_on_case(false, false, true));
    assert!(!is_on_case(false, false, false));
}

#[test]
fn parallel_needs_matching_offsets_and_directions() {
    assert!(is_parallel_case(true, true, true, false));
    assert!(is_parallel_case(true, true, false, true));
    assert!(!is_parallel_case(true, true, false, false));
    assert!(!is_parallel_case(false, true, true, false));
    assert!(!is_parallel_case(true, false, true, false));
}

#[test]
fn degenerate_line_is_never_parallel_to_a_plane() {
    assert!(!is_parallel_with_plane_case(true, true));
    assert!(is_parallel_with_plane_case(false, true));
    assert!(!is_parallel_with_plane_case(false, false));
}

#[test]
fn point_at_dist_snaps_to_endpoints() {
    // A walk of 18 units along a segment 18 units long, measured in floats.
    let length = distance([0.0, 0.0, 0.0], [18.0, 0.0, 0.0]);
    let d = 18.0_f64;
    let dist_negligible = d.abs() < TOLERANCE_POINT;
    let dist_matches_length = (length - d).abs() < TOLERANCE_POINT;
    let r = point_at_dist_case(
        dist_negligible,
        dist_matches_length,
        false,
        d < 0.0,
        length < d,
    );
    assert_eq!(r, Ok(SegmentSite::AtEnd));
    assert_eq!(point_at_dist_case(true, false, false, false, false), Ok(SegmentSite::AtStart));
}

#[test]
fn point_at_dist_rejects_outside_unextended() {
    assert_eq!(
        point_at_dist_case(false, false, false, true, false),
        Err(BgcError::InvalidInput)
    );
    assert_eq!(
        point_at_dist_case(false, false, false, false, true),
        Err(BgcError::InvalidInput)
    );
    assert_eq!(point_at_dist_case(false, false, true, false, true), Ok(SegmentSite::Interior));
    assert_eq!(point_at_dist_case(false, false, false, false, false), Ok(SegmentSite::Interior));
}

#[test]
fn line_plane_decision_order() {
    assert_eq!(
        intersect_with_plane_case(true, false, false, false),
        Ok(SegmentSite::AtStart)
    );
    assert_eq!(intersect_with_plane_case(false, true, false, false), Ok(SegmentSite::AtEnd));
    assert_eq!(
        intersect_with_plane_case(false, false, true, false),
        Err(BgcError::MustBeNonZero)
    );
    assert_eq!(
        intersect_with_plane_case(false, false, false, false),
        Err(BgcError::InvalidInput)
    );
    assert_eq!(
        intersect_with_plane_case(false, false, false, true),
        Ok(SegmentSite::Interior)
    );
}

#[test]
fn line_line_crossing_first_quadrant() {
    // Segments (1,1,0)-(7,7,0) and (2,6,0)-(6,1,0), unextended; the
    // closest-approach candidates both land on (34/9, 34/9, 0).
    let l1 = ([1.0, 1.0, 0.0], [7.0, 7.0, 0.0]);
    let l2 = ([2.0, 6.0, 0.0], [6.0, 1.0, 0.0]);
    let start_meets_start = distance(l1.0, l2.0) < TOLERANCE_POINT;
    let start_meets_end = distance(l1.0, l2.1) < TOLERANCE_POINT;
    let end_meets_start = distance(l1.1, l2.0) < TOLERANCE_POINT;
    let end_meets_end = distance(l1.1, l2.1) < TOLERANCE_POINT;
    let d1 = unit([l1.1[0] - l1.0[0], l1.1[1] - l1.0[1], l1.1[2] - l1.0[2]]);
    let d2 = unit([l2.1[0] - l2.0[0], l2.1[1] - l2.0[1], l2.1[2] - l2.0[2]]);
    let q = dot(d1, d2);
    let between = [l2.0[0] - l1.0[0], l2.0[1] - l1.0[1], l2.0[2] - l1.0[2]];
    let s1 = dot(d1, between);
    let s2 = -dot(d2, between);
    let t1 = (s2 * q + s1) / (1.0 - q * q);
    let t2 = (s1 * q + s2) / (1.0 - q * q);
    let cand1 = [l1.0[0] + d1[0] * t1, l1.0[1] + d1[1] * t1, l1.0[2] + d1[2] * t1];
    let cand2 = [l2.0[0] + d2[0] * t2, l2.0[1] + d2[1] * t2, l2.0[2] + d2[2] * t2];
    let candidate_on_self = 0.0 <= t1 && t1 <= distance(l1.0, l1.1);
    let candidate_on_other = 0.0 <= t2 && t2 <= distance(l2.0, l2.1);
    let candidates_coincide = distance(cand1, cand2) < TOLERANCE_POINT;
    assert!((cand1[0] - 34.0 / 9.0).abs() < TOLERANCE_POINT);
    let r = intersect_with_line_case(
        start_meets_start,
        start_meets_end,
        end_meets_start,
        end_meets_end,
        false,
        candidate_on_self,
        candidate_on_other,
        candidates_coincide,
    );
    assert_eq!(r, Ok(SegmentSite::Interior));
}

#[test]
fn line_line_endpoint_shortcut() {
    assert_eq!(
        intersect_with_line_case(true, false, false, false, false, false, false, false),
        Ok(SegmentSite::AtStart)
    );
    assert_eq!(
        intersect_with_line_case(false, true, false, false, false, false, false, false),
        Ok(SegmentSite::AtStart)
    );
    assert_eq!(
        intersect_with_line_case(false, false, true, false, false, false, false, false),
        Ok(SegmentSite::AtEnd)
    );
    assert_eq!(
        intersect_with_line_case(false, false, false, true, false, false, false, false),
        Ok(SegmentSite::AtEnd)
    );
}

#[test]
fn line_line_parallel_and_skew_failures() {
    assert_eq!(
        intersect_with_line_case(false, false, false, false, true, true, true, true),
        Err(BgcError::MustBeNonZero)
    );
    // Candidates off an unextended segment.
    assert_eq!(
        intersect_with_line_case(false, false, false, false, false, false, true, true),
        Err(BgcError::InvalidInput)
    );
    // Skew lines: both candidates on their segments but apart in space.
    assert_eq!(
        intersect_with_line_case(false, false, false, false, false, true, true, false),
        Err(BgcError::InvalidInput)
    );
}

#[test]
fn line_line_swapping_roles_preserves_the_verdict() {
    // Spot checks of the symmetry law on the executable decision: swapping
    // the lines swaps the cross-coincidences and the on-segment flags.
    let samples = [
        (false, true, false, false, false, true, false, true),
        (false, false, false, false, true, true, true, true),
        (false, false, false, false, false, true, true, false),
        (false, false, false, false, false, true, true, true),
        (false, false, false, true, false, false, true, true),
    ];
    for (ss, se, es, ee, par, on_self, on_other, coincide) in samples {
        let direct = intersect_with_line_case(ss, se, es, ee, par, on_self, on_other, coincide);
        let swapped = intersect_with_line_case(ss, es, se, ee, par, on_other, on_self, coincide);
        assert_eq!(direct.is_ok(), swapped.is_ok());
        if let (Err(e1), Err(e2)) = (direct, swapped) {
            assert_eq!(e1, e2);
        }
    }
}
