//! Area functions for triangles and planar quadrilaterals.

use vstd::prelude::*;

use crate::float::Float;
use crate::point::Point3;

verus! {

/// Half the magnitude of the cross product of the edges `b - a` and `c - a`.
pub open spec fn spec_triangle_area<T: Float>(a: Point3<T>, b: Point3<T>, c: Point3<T>) -> T {
    b.sub_spec(a).cross_spec(c.sub_spec(a)).magnitude_spec().mul_spec(T::half_spec())
}

/// Area of triangle (A, B, C): half-magnitude of the cross product of two
/// edge vectors, hence always a non-negative magnitude.
pub fn triangle_area<T: Float>(a: Point3<T>, b: Point3<T>, c: Point3<T>) -> (r: T)
    ensures
        r == spec_triangle_area(a, b, c),
{
    let ab = b.sub(a);
    let ac = c.sub(a);
    let cross = ab.cross(ac);
    cross.magnitude().mul(T::half())
}

/// Sum of the two triangle areas (A,B,C) and (A,C,D) sharing the diagonal AC.
pub open spec fn spec_quad_area<T: Float>(
    a: Point3<T>,
    b: Point3<T>,
    c: Point3<T>,
    d: Point3<T>,
) -> T {
    spec_triangle_area(a, b, c).add_spec(spec_triangle_area(a, c, d))
}

/// Area of a planar quadrilateral (A, B, C, D), assumed convex.
/// Computed as the sum of two triangle areas: (A,B,C) + (A,C,D).
/// Not valid for non-planar or non-convex quads.
pub fn quad_area<T: Float>(a: Point3<T>, b: Point3<T>, c: Point3<T>, d: Point3<T>) -> (r: T)
    ensures
        r == spec_quad_area(a, b, c, d),
{
    triangle_area(a, b, c).add(triangle_area(a, c, d))
}

/// Swapping the second and third vertex leaves the triangle area unchanged:
/// the cross product of the reversed edge pair is the exact componentwise
/// negation of the original one, and the magnitude squares each component.
pub proof fn lemma_triangle_area_swap<T: Float>(a: Point3<T>, b: Point3<T>, c: Point3<T>)
    ensures
        spec_triangle_area(a, b, c) == spec_triangle_area(a, c, b),
{
    let u = b.sub_spec(a);
    let v = c.sub_spec(a);
    let ax = u.y.mul_spec(v.z);
    let bx = u.z.mul_spec(v.y);
    let ay = u.z.mul_spec(v.x);
    let by = u.x.mul_spec(v.z);
    let az = u.x.mul_spec(v.y);
    let bz = u.y.mul_spec(v.x);
    T::law_mul_comm(v.y, u.z);
    T::law_mul_comm(v.z, u.y);
    T::law_mul_comm(v.z, u.x);
    T::law_mul_comm(v.x, u.z);
    T::law_mul_comm(v.x, u.y);
    T::law_mul_comm(v.y, u.x);
    T::law_sq_sub_swap(ax, bx);
    T::law_sq_sub_swap(ay, by);
    T::law_sq_sub_swap(az, bz);
}

/// For every quad (A,B,C,D), the quad area is exactly the sum of the two
/// triangle areas (A,B,C) and (A,C,D): the decomposition holds by
/// construction, whatever the scalar algebra rounds each term to.
pub proof fn lemma_quad_area_decomposition<T: Float>(
    a: Point3<T>,
    b: Point3<T>,
    c: Point3<T>,
    d: Point3<T>,
)
    ensures
        spec_quad_area(a, b, c, d) == spec_triangle_area(a, b, c).add_spec(
            spec_triangle_area(a, c, d),
        ),
{
}

} // verus!
