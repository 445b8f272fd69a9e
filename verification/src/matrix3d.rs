//! Exact model of the coordinate-frame transform pair.
//!
//! The kernel builds two affine maps from an origin and two orthonormal
//! axes: one into the local frame spanned by `u`, `v` and `u x v`, and one
//! back into world coordinates. Over exact arithmetic the two are mutual
//! inverses; the numeric layer realizes them as floating-point matrices,
//! where the round trip holds only within the point tolerance. This module
//! states the exact half: integer coordinate triples, the two maps as spec
//! functions, and the proof that the round trip is the identity whenever
//! the axes are orthonormal.

use vstd::prelude::*;

verus! {

/// An exact coordinate triple.
#[derive(PartialEq, Eq, Structural)]
pub struct Coords {
    pub x: int,
    pub y: int,
    pub z: int,
}

/// Inner product of two triples.
pub open spec fn dot(a: Coords, b: Coords) -> int {
    a.x * b.x + a.y * b.y + a.z * b.z
}

/// Cross product of two triples.
pub open spec fn cross(a: Coords, b: Coords) -> Coords {
    Coords {
        x: a.y * b.z - a.z * b.y,
        y: a.z * b.x - a.x * b.z,
        z: a.x * b.y - a.y * b.x,
    }
}

/// Componentwise difference.
pub open spec fn diff(a: Coords, b: Coords) -> Coords {
    Coords { x: a.x - b.x, y: a.y - b.y, z: a.z - b.z }
}

/// Componentwise sum.
pub open spec fn sum(a: Coords, b: Coords) -> Coords {
    Coords { x: a.x + b.x, y: a.y + b.y, z: a.z + b.z }
}

/// The transform into the local frame: coordinates of `p - origin` along
/// `u`, `v` and `u x v`.
pub open spec fn local_coords(p: Coords, origin: Coords, u: Coords, v: Coords) -> Coords {
    let w = cross(u, v);
    let d = diff(p, origin);
    Coords { x: dot(d, u), y: dot(d, v), z: dot(d, w) }
}

/// The transform back into world coordinates: the axes recombined and the
/// origin restored.
pub open spec fn world_coords(q: Coords, origin: Coords, u: Coords, v: Coords) -> Coords {
    let w = cross(u, v);
    Coords {
        x: origin.x + q.x * u.x + q.y * v.x + q.z * w.x,
        y: origin.y + q.x * u.y + q.y * v.y + q.z * w.y,
        z: origin.z + q.x * u.z + q.y * v.z + q.z * w.z,
    }
}

/// Round trip: for any point, origin and orthonormal axes `u`, `v`, the
/// transform into the local frame followed by the transform back into
/// world coordinates is the identity. This is the exact-arithmetic half of
/// the kernel's round-trip invariant; the floating-point matrices of the
/// numeric layer realize these maps with rounding, which is why the kernel
/// compares the round trip within the point tolerance.
pub proof fn lemma_transform_round_trip(p: Coords, origin: Coords, u: Coords, v: Coords)
    requires
        dot(u, u) == 1,
        dot(v, v) == 1,
        dot(u, v) == 0,
    ensures
        world_coords(local_coords(p, origin, u, v), origin, u, v) == p,
{
    let w = cross(u, v);
    let d = diff(p, origin);
    assert(dot(d, u) * u.x + dot(d, v) * v.x + dot(d, w) * w.x == d.x) by (nonlinear_arith)
        requires
            dot(u, u) == 1,
            dot(v, v) == 1,
            dot(u, v) == 0,
            w == cross(u, v),
            d == diff(p, origin),
    ;
    assert(dot(d, u) * u.y + dot(d, v) * v.y + dot(d, w) * w.y == d.y) by (nonlinear_arith)
        requires
            dot(u, u) == 1,
            dot(v, v) == 1,
            dot(u, v) == 0,
            w == cross(u, v),
            d == diff(p, origin),
    ;
    assert(dot(d, u) * u.z + dot(d, v) * v.z + dot(d, w) * w.z == d.z) by (nonlinear_arith)
        requires
            dot(u, u) == 1,
            dot(v, v) == 1,
            dot(u, v) == 0,
            w == cross(u, v),
            d == diff(p, origin),
    ;
}

/// The frame's origin maps to the local origin.
pub proof fn lemma_local_origin(origin: Coords, u: Coords, v: Coords)
    ensures
        local_coords(origin, origin, u, v) == (Coords { x: 0, y: 0, z: 0 }),
{
}

/// The local axes align with the world axes: one step along `u`, `v` or
/// `u x v` from the origin lands on the corresponding local unit point.
pub proof fn lemma_local_axes(origin: Coords, u: Coords, v: Coords)
    requires
        dot(u, u) == 1,
        dot(v, v) == 1,
        dot(u, v) == 0,
    ensures
        local_coords(sum(origin, u), origin, u, v) == (Coords { x: 1, y: 0, z: 0 }),
        local_coords(sum(origin, v), origin, u, v) == (Coords { x: 0, y: 1, z: 0 }),
        local_coords(sum(origin, cross(u, v)), origin, u, v) == (Coords { x: 0, y: 0, z: 1 }),
{
    let w = cross(u, v);
    assert(dot(u, w) == 0 && dot(v, w) == 0 && dot(w, w) == 1) by (nonlinear_arith)
        requires
            dot(u, u) == 1,
            dot(v, v) == 1,
            dot(u, v) == 0,
            w == cross(u, v),
    ;
    assert(dot(v, u) == dot(u, v) && dot(w, u) == dot(u, w) && dot(w, v) == dot(v, w))
        by (nonlinear_arith);
}

} // verus!
