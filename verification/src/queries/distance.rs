//! Distance queries: point to segment, triangle and polygon.

use vstd::prelude::*;

use crate::float::Float;
use crate::point::{Point2, Point3};
use crate::queries::point_in_polygon::{point_in_polygon, spec_point_in_polygon};

verus! {

/// Project the point onto the infinite line through the segment, clamp the
/// projection parameter to [0,1] (max with 0, then min with 1), and take the
/// Euclidean distance to the clamped projection.
pub open spec fn spec_point_to_segment_distance<T: Float>(
    p: Point2<T>,
    a: Point2<T>,
    b: Point2<T>,
) -> T {
    let ab = b.sub_spec(a);
    let t = p.sub_spec(a).dot_spec(ab).div_spec(ab.dot_spec(ab)).max_spec(
        T::zero_spec(),
    ).min_spec(T::one_spec());
    let proj = a.add_spec(ab.mul_spec(t));
    p.sub_spec(proj).magnitude_spec()
}

/// Distance from point `p` to segment [a,b] in 2D. A zero-length segment
/// divides by zero in the clamp computation, and the result follows the
/// scalar algebra's division (IEEE: NaN): a degenerate input left to the
/// caller.
pub fn point_to_segment_distance<T: Float>(p: Point2<T>, a: Point2<T>, b: Point2<T>) -> (r: T)
    ensures
        r == spec_point_to_segment_distance(p, a, b),
{
    let ab = b.sub(a);
    let t = p.sub(a).dot(ab).div(ab.dot(ab)).max(T::zero()).min(T::one());
    let proj = a.add(ab.mul(t));
    p.sub(proj).magnitude()
}

/// Project `p` onto the triangle's plane along the normalized face normal
/// (left un-normalized when its magnitude is exactly zero); if the projection
/// falls inside the triangle's 2D shadow (dropping z), the distance is the
/// absolute out-of-plane offset, otherwise the Pythagorean combination of
/// that offset with the least in-plane distance to the three edges.
pub open spec fn spec_point_to_triangle_distance<T: Float>(
    p: Point3<T>,
    a: Point3<T>,
    b: Point3<T>,
    c: Point3<T>,
) -> T {
    let nvec = b.sub_spec(a).cross_spec(c.sub_spec(a));
    let norm = nvec.magnitude_spec();
    let normal = if !norm.is_zero_spec() {
        nvec.mul_spec(T::one_spec().div_spec(norm))
    } else {
        nvec
    };
    let d = p.sub_spec(a).dot_spec(normal);
    let proj2d = Point2 {
        x: p.x.sub_spec(normal.x.mul_spec(d)),
        y: p.y.sub_spec(normal.y.mul_spec(d)),
    };
    let ta = Point2 { x: a.x, y: a.y };
    let tb = Point2 { x: b.x, y: b.y };
    let tc = Point2 { x: c.x, y: c.y };
    if spec_point_in_polygon(proj2d, seq![ta, tb, tc]) {
        d.abs_spec()
    } else {
        let d_ab = spec_point_to_segment_distance(proj2d, ta, tb);
        let d_bc = spec_point_to_segment_distance(proj2d, tb, tc);
        let d_ca = spec_point_to_segment_distance(proj2d, tc, ta);
        let min2d = d_ab.min_spec(d_bc).min_spec(d_ca);
        d.abs_spec().mul_spec(d.abs_spec()).add_spec(min2d.mul_spec(min2d)).sqrt_spec()
    }
}

/// Distance from point `p` to triangle (a,b,c) in 3D. The 2D containment
/// test after dropping z is valid because the triangle vertices and the
/// projected point share the projection plane by construction.
pub fn point_to_triangle_distance<T: Float>(
    p: Point3<T>,
    a: Point3<T>,
    b: Point3<T>,
    c: Point3<T>,
) -> (r: T)
    ensures
        r == spec_point_to_triangle_distance(p, a, b, c),
{
    let nvec = b.sub(a).cross(c.sub(a));
    let norm = nvec.magnitude();
    let normal = if !norm.is_zero() {
        nvec.mul(T::one().div(norm))
    } else {
        nvec
    };
    let d = p.sub(a).dot(normal);
    let proj = Point3::new(
        p.x.sub(normal.x.mul(d)),
        p.y.sub(normal.y.mul(d)),
        p.z.sub(normal.z.mul(d)),
    );
    let tri2d = [
        Point2::new(a.x, a.y),
        Point2::new(b.x, b.y),
        Point2::new(c.x, c.y),
    ];
    let proj2d = Point2::new(proj.x, proj.y);
    proof {
        assert(tri2d@ =~= seq![
            (Point2 { x: a.x, y: a.y }),
            (Point2 { x: b.x, y: b.y }),
            (Point2 { x: c.x, y: c.y }),
        ]);
    }
    if point_in_polygon(proj2d, &tri2d) {
        d.abs()
    } else {
        let d_ab = point_to_segment_distance(proj2d, tri2d[0], tri2d[1]);
        let d_bc = point_to_segment_distance(proj2d, tri2d[1], tri2d[2]);
        let d_ca = point_to_segment_distance(proj2d, tri2d[2], tri2d[0]);
        let min2d = d_ab.min(d_bc).min(d_ca);
        d.abs().mul(d.abs()).add(min2d.mul(min2d)).sqrt()
    }
}

/// Left fold, from positive infinity, of the distances to the first `k`
/// consecutive edges (vertex `i` to vertex `i + 1`).
pub open spec fn spec_edge_min_prefix<T: Float>(p: Point2<T>, s: Seq<Point2<T>>, k: int) -> T
    decreases k,
{
    if k <= 0 {
        T::infinity_spec()
    } else {
        spec_edge_min_prefix(p, s, k - 1).min_spec(
            spec_point_to_segment_distance(p, s[k - 1], s[k]),
        )
    }
}

/// Zero when the point is inside; otherwise the least distance to any edge,
/// including the wrap-around edge from the last vertex back to the first.
pub open spec fn spec_point_to_polygon_distance<T: Float>(p: Point2<T>, s: Seq<Point2<T>>) -> T {
    if spec_point_in_polygon(p, s) {
        T::zero_spec()
    } else {
        let n = s.len() as int;
        spec_edge_min_prefix(p, s, n - 1).min_spec(
            spec_point_to_segment_distance(p, s[n - 1], s[0]),
        )
    }
}

/// Distance from point `p` to a polygon in 2D: zero if inside (per the
/// winding-number test), else the minimum point-to-segment distance over all
/// polygon edges including the wrap-around edge. Fewer than 3 vertices is a
/// contract violation; the length bound keeps the winding counter within a
/// machine word.
pub fn point_to_polygon_distance<T: Float>(p: Point2<T>, poly: &[Point2<T>]) -> (r: T)
    requires
        3 <= poly@.len() <= 0x7fff_ffff,
    ensures
        r == spec_point_to_polygon_distance(p, poly@),
{
    if point_in_polygon(p, poly) {
        T::zero()
    } else {
        let n = poly.len();
        let mut best = T::infinity();
        let mut i: usize = 0;
        while i < n - 1
            invariant
                n == poly@.len(),
                3 <= n,
                i <= n - 1,
                best == spec_edge_min_prefix(p, poly@, i as int),
            decreases n - i,
        {
            best = best.min(point_to_segment_distance(p, poly[i], poly[i + 1]));
            i += 1;
        }
        best.min(point_to_segment_distance(p, poly[n - 1], poly[0]))
    }
}

} // verus!
