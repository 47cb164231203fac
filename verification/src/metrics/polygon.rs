//! Polygon metrics: area and centroid for arbitrary planar polygons.
//!
//! The signed area and centroid of an arbitrary simple planar polygon come
//! from the shoelace formula over the cyclic vertex sequence; vertices may be
//! ordered clockwise or counter-clockwise, first and last not repeated.

use vstd::prelude::*;

use crate::float::Float;
use crate::point::Point2;
use crate::spec_wrap_index;

verus! {

/// The shoelace cross term of edge `i`: `x_i * y_{i+1} - x_{i+1} * y_i`
/// (indices cyclic).
pub open spec fn spec_shoelace_term<T: Float>(s: Seq<Point2<T>>, i: int) -> T {
    let n = s.len() as int;
    let a = s[i];
    let b = s[spec_wrap_index(i + 1, n)];
    a.x.mul_spec(b.y).sub_spec(b.x.mul_spec(a.y))
}

/// Left fold of the first `k` shoelace cross terms.
pub open spec fn spec_shoelace_sum<T: Float>(s: Seq<Point2<T>>, k: int) -> T
    decreases k,
{
    if k <= 0 {
        T::zero_spec()
    } else {
        spec_shoelace_sum(s, k - 1).add_spec(spec_shoelace_term(s, k - 1))
    }
}

/// `|sum * 1/2|` over the full cyclic shoelace sum: the absolute value
/// normalizes the sign, so the area is winding-insensitive.
pub open spec fn spec_polygon_area<T: Float>(s: Seq<Point2<T>>) -> T {
    spec_shoelace_sum(s, s.len() as int).mul_spec(T::half_spec()).abs_spec()
}

/// Area of an arbitrary simple planar polygon (shoelace formula).
/// Vertices ordered CCW or CW, first and last need not repeat; correct for
/// any simple, possibly non-convex polygon regardless of winding direction.
/// Fewer than 3 vertices is a contract violation.
pub fn polygon_area<T: Float>(verts: &[Point2<T>]) -> (r: T)
    requires
        verts@.len() >= 3,
    ensures
        r == spec_polygon_area(verts@),
{
    let n = verts.len();
    let mut sum = T::zero();
    let mut i: usize = 0;
    while i < n
        invariant
            n == verts@.len(),
            n >= 3,
            i <= n,
            sum == spec_shoelace_sum(verts@, i as int),
        decreases n - i,
    {
        let j = if i + 1 < n {
            i + 1
        } else {
            0
        };
        let a = verts[i];
        let b = verts[j];
        proof {
            assert(j == spec_wrap_index(i as int + 1, n as int));
        }
        sum = sum.add(a.x.mul(b.y).sub(b.x.mul(a.y)));
        i += 1;
    }
    sum.mul(T::half()).abs()
}

/// Left fold of the first `k` x-weighted shoelace terms:
/// term `i` is `(x_i + x_{i+1}) * cross_i`.
pub open spec fn spec_centroid_x_sum<T: Float>(s: Seq<Point2<T>>, k: int) -> T
    decreases k,
{
    if k <= 0 {
        T::zero_spec()
    } else {
        let i = k - 1;
        let n = s.len() as int;
        let a = s[i];
        let b = s[spec_wrap_index(i + 1, n)];
        spec_centroid_x_sum(s, i).add_spec(
            a.x.add_spec(b.x).mul_spec(spec_shoelace_term(s, i)),
        )
    }
}

/// Left fold of the first `k` y-weighted shoelace terms:
/// term `i` is `(y_i + y_{i+1}) * cross_i`.
pub open spec fn spec_centroid_y_sum<T: Float>(s: Seq<Point2<T>>, k: int) -> T
    decreases k,
{
    if k <= 0 {
        T::zero_spec()
    } else {
        let i = k - 1;
        let n = s.len() as int;
        let a = s[i];
        let b = s[spec_wrap_index(i + 1, n)];
        spec_centroid_y_sum(s, i).add_spec(
            a.y.add_spec(b.y).mul_spec(spec_shoelace_term(s, i)),
        )
    }
}

/// `(Cx, Cy) = (1/(6A)) * (x-sum, y-sum)`, where `A` is the SIGNED area
/// (half the full shoelace sum, no absolute value).
pub open spec fn spec_polygon_centroid<T: Float>(s: Seq<Point2<T>>) -> Point2<T> {
    let n = s.len() as int;
    let a = spec_shoelace_sum(s, n).mul_spec(T::half_spec());
    let factor = T::one_spec().div_spec(T::from_u32_spec(6).mul_spec(a));
    Point2 {
        x: spec_centroid_x_sum(s, n).mul_spec(factor),
        y: spec_centroid_y_sum(s, n).mul_spec(factor),
    }
}

/// Centroid of a planar polygon:
/// `(Cx, Cy) = (1/(6A)) * sum (v_i + v_{i+1}) * (x_i y_{i+1} - x_{i+1} y_i)`,
/// with `A` the signed area. A degenerate polygon with zero signed area
/// divides by zero, and the result follows the scalar algebra's division
/// (IEEE: Infinity/NaN); this is an error condition left to the caller.
/// Fewer than 3 vertices is a contract violation.
pub fn polygon_centroid<T: Float>(verts: &[Point2<T>]) -> (r: Point2<T>)
    requires
        verts@.len() >= 3,
    ensures
        r == spec_polygon_centroid(verts@),
{
    let n = verts.len();
    let mut a_twice = T::zero();
    let mut cx = T::zero();
    let mut cy = T::zero();
    let mut i: usize = 0;
    while i < n
        invariant
            n == verts@.len(),
            n >= 3,
            i <= n,
            a_twice == spec_shoelace_sum(verts@, i as int),
            cx == spec_centroid_x_sum(verts@, i as int),
            cy == spec_centroid_y_sum(verts@, i as int),
        decreases n - i,
    {
        let j = if i + 1 < n {
            i + 1
        } else {
            0
        };
        let a = verts[i];
        let b = verts[j];
        proof {
            assert(j == spec_wrap_index(i as int + 1, n as int));
        }
        let cross = a.x.mul(b.y).sub(b.x.mul(a.y));
        a_twice = a_twice.add(cross);
        cx = cx.add(a.x.add(b.x).mul(cross));
        cy = cy.add(a.y.add(b.y).mul(cross));
        i += 1;
    }
    let area = a_twice.mul(T::half());
    let factor = T::one().div(T::from_u32(6).mul(area));
    Point2::new(cx.mul(factor), cy.mul(factor))
}

} // verus!
