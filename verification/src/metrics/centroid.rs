//! Centroid functions for triangles, quads, tetrahedra and hexahedra.

use vstd::prelude::*;

use crate::float::Float;
use crate::point::Point3;

verus! {

/// The unweighted vertex average `(A + B + C) / 3`, componentwise.
pub open spec fn spec_triangle_centroid<T: Float>(
    a: Point3<T>,
    b: Point3<T>,
    c: Point3<T>,
) -> Point3<T> {
    Point3 {
        x: a.x.add_spec(b.x).add_spec(c.x).div_spec(T::from_u32_spec(3)),
        y: a.y.add_spec(b.y).add_spec(c.y).div_spec(T::from_u32_spec(3)),
        z: a.z.add_spec(b.z).add_spec(c.z).div_spec(T::from_u32_spec(3)),
    }
}

/// Centroid of triangle = (A + B + C) / 3.
pub fn triangle_centroid<T: Float>(a: Point3<T>, b: Point3<T>, c: Point3<T>) -> (r: Point3<T>)
    ensures
        r == spec_triangle_centroid(a, b, c),
{
    let three = T::from_u32(3);
    Point3::new(
        a.x.add(b.x).add(c.x).div(three),
        a.y.add(b.y).add(c.y).div(three),
        a.z.add(b.z).add(c.z).div(three),
    )
}

/// The area-weighted average of the centroids of the triangles (A,B,C) and
/// (A,C,D), weighted by the magnitudes of their edge cross products.
pub open spec fn spec_quad_centroid<T: Float>(
    a: Point3<T>,
    b: Point3<T>,
    c: Point3<T>,
    d: Point3<T>,
) -> Point3<T> {
    let c1 = spec_triangle_centroid(a, b, c);
    let c2 = spec_triangle_centroid(a, c, d);
    let w1 = b.sub_spec(a).cross_spec(c.sub_spec(a)).magnitude_spec();
    let w2 = c.sub_spec(a).cross_spec(d.sub_spec(a)).magnitude_spec();
    let w = w1.add_spec(w2);
    Point3 {
        x: c1.x.mul_spec(w1).add_spec(c2.x.mul_spec(w2)).div_spec(w),
        y: c1.y.mul_spec(w1).add_spec(c2.y.mul_spec(w2)).div_spec(w),
        z: c1.z.mul_spec(w1).add_spec(c2.z.mul_spec(w2)).div_spec(w),
    }
}

/// Centroid of a planar quad = area-weighted average of two triangle
/// centroids. A quad whose two triangle weights sum to zero divides by zero,
/// and the result follows the scalar algebra's division (IEEE: NaN/Infinity).
pub fn quad_centroid<T: Float>(a: Point3<T>, b: Point3<T>, c: Point3<T>, d: Point3<T>) -> (r:
    Point3<T>)
    ensures
        r == spec_quad_centroid(a, b, c, d),
{
    let c1 = triangle_centroid(a, b, c);
    let c2 = triangle_centroid(a, c, d);
    let w1 = b.sub(a).cross(c.sub(a)).magnitude();
    let w2 = c.sub(a).cross(d.sub(a)).magnitude();
    let w = w1.add(w2);
    Point3::new(
        c1.x.mul(w1).add(c2.x.mul(w2)).div(w),
        c1.y.mul(w1).add(c2.y.mul(w2)).div(w),
        c1.z.mul(w1).add(c2.z.mul(w2)).div(w),
    )
}

/// The unweighted vertex average `(A + B + C + D) * (1/4)`, componentwise.
pub open spec fn spec_tetrahedron_centroid<T: Float>(
    a: Point3<T>,
    b: Point3<T>,
    c: Point3<T>,
    d: Point3<T>,
) -> Point3<T> {
    let inv4 = T::from_u32_spec(4).recip_spec();
    Point3 {
        x: a.x.add_spec(b.x).add_spec(c.x).add_spec(d.x).mul_spec(inv4),
        y: a.y.add_spec(b.y).add_spec(c.y).add_spec(d.y).mul_spec(inv4),
        z: a.z.add_spec(b.z).add_spec(c.z).add_spec(d.z).mul_spec(inv4),
    }
}

/// Centroid of tetrahedron = (A + B + C + D) / 4.
pub fn tetrahedron_centroid<T: Float>(
    a: Point3<T>,
    b: Point3<T>,
    c: Point3<T>,
    d: Point3<T>,
) -> (r: Point3<T>)
    ensures
        r == spec_tetrahedron_centroid(a, b, c, d),
{
    let inv4 = T::from_u32(4).recip();
    Point3::new(
        a.x.add(b.x).add(c.x).add(d.x).mul(inv4),
        a.y.add(b.y).add(c.y).add(d.y).mul(inv4),
        a.z.add(b.z).add(c.z).add(d.z).mul(inv4),
    )
}

/// Left fold of componentwise point addition, starting from the origin.
pub open spec fn spec_point3_sum<T: Float>(s: Seq<Point3<T>>) -> Point3<T>
    decreases s.len(),
{
    if s.len() == 0 {
        Point3 { x: T::zero_spec(), y: T::zero_spec(), z: T::zero_spec() }
    } else {
        let acc = spec_point3_sum(s.drop_last());
        let p = s.last();
        Point3 { x: acc.x.add_spec(p.x), y: acc.y.add_spec(p.y), z: acc.z.add_spec(p.z) }
    }
}

/// The vertex sum scaled by `1/8`, componentwise.
pub open spec fn spec_hexahedron_centroid<T: Float>(verts: [Point3<T>; 8]) -> Point3<T> {
    let sum = spec_point3_sum(verts@);
    let inv8 = T::from_u32_spec(8).recip_spec();
    Point3 {
        x: sum.x.mul_spec(inv8),
        y: sum.y.mul_spec(inv8),
        z: sum.z.mul_spec(inv8),
    }
}

/// Centroid of a hexahedron (assumed affine) = average of its 8 vertices.
/// This is the true centroid only under an affine (parallelepiped-like)
/// assumption.
pub fn hexahedron_centroid<T: Float>(verts: [Point3<T>; 8]) -> (r: Point3<T>)
    ensures
        r == spec_hexahedron_centroid(verts),
{
    let mut sum = Point3::new(T::zero(), T::zero(), T::zero());
    let mut i: usize = 0;
    while i < 8
        invariant
            i <= 8,
            sum == spec_point3_sum(verts@.take(i as int)),
        decreases 8 - i,
    {
        let p = verts[i];
        proof {
            assert(verts@.take(i as int + 1).drop_last() =~= verts@.take(i as int));
            assert(verts@.take(i as int + 1).last() == verts@[i as int]);
        }
        sum = Point3::new(sum.x.add(p.x), sum.y.add(p.y), sum.z.add(p.z));
        i += 1;
    }
    proof {
        assert(verts@.take(8) =~= verts@);
    }
    let inv8 = T::from_u32(8).recip();
    Point3::new(sum.x.mul(inv8), sum.y.mul(inv8), sum.z.mul(inv8))
}

} // verus!
