//! Volume functions for tetrahedra and hexahedra.

use vstd::prelude::*;

use crate::float::Float;
use crate::point::Point3;

verus! {

/// `|((B-A) x (C-A)) . (D-A)| / 6`, the scalar triple product of the three
/// edges at A, made sign-insensitive and scaled by the reciprocal of six.
pub open spec fn spec_tetrahedron_volume<T: Float>(
    a: Point3<T>,
    b: Point3<T>,
    c: Point3<T>,
    d: Point3<T>,
) -> T {
    b.sub_spec(a).cross_spec(c.sub_spec(a)).dot_spec(d.sub_spec(a)).abs_spec().mul_spec(
        T::from_u32_spec(6).recip_spec(),
    )
}

/// Volume of tetrahedron (A,B,C,D) = |dot((B-A)x(C-A), D-A)| / 6,
/// sign-insensitive.
pub fn tetrahedron_volume<T: Float>(a: Point3<T>, b: Point3<T>, c: Point3<T>, d: Point3<T>) -> (r:
    T)
    ensures
        r == spec_tetrahedron_volume(a, b, c, d),
{
    let v = b.sub(a).cross(c.sub(a)).dot(d.sub(a)).abs();
    v.mul(T::from_u32(6).recip())
}

/// Sum of the volumes of the five tetrahedra of one fixed corner-indexing
/// decomposition of the hexahedron, summed left to right.
pub open spec fn spec_hexahedron_volume<T: Float>(verts: [Point3<T>; 8]) -> T {
    spec_tetrahedron_volume(verts[0], verts[1], verts[3], verts[4]).add_spec(
        spec_tetrahedron_volume(verts[1], verts[2], verts[3], verts[6]),
    ).add_spec(spec_tetrahedron_volume(verts[1], verts[5], verts[4], verts[6])).add_spec(
        spec_tetrahedron_volume(verts[3], verts[7], verts[4], verts[6]),
    ).add_spec(spec_tetrahedron_volume(verts[1], verts[3], verts[4], verts[6]))
}

/// Volume of a hexahedron with 8 vertices in the standard cube corner
/// ordering, as the sum of five tetrahedra under one fixed decomposition.
/// Exact for affine hexahedra, an approximation for general convex ones;
/// the decomposition assumes the face/diagonal topology of that ordering.
pub fn hexahedron_volume<T: Float>(verts: [Point3<T>; 8]) -> (r: T)
    ensures
        r == spec_hexahedron_volume(verts),
{
    tetrahedron_volume(verts[0], verts[1], verts[3], verts[4]).add(
        tetrahedron_volume(verts[1], verts[2], verts[3], verts[6]),
    ).add(tetrahedron_volume(verts[1], verts[5], verts[4], verts[6])).add(
        tetrahedron_volume(verts[3], verts[7], verts[4], verts[6]),
    ).add(tetrahedron_volume(verts[1], verts[3], verts[4], verts[6]))
}

} // verus!
