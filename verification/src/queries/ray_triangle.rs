//! Ray-triangle intersection (Moller-Trumbore parametric test).

use vstd::prelude::*;

use crate::float::Float;
use crate::point::Point3;
use crate::vec::Vec3;

verus! {

/// A 3D ray: origin + t * dir, with dir not necessarily normalized; the
/// intersection parameter t is measured in units of dir's own length.
#[derive(Clone, Copy, Debug)]
pub struct Ray<T: Float> {
    /// Ray origin point
    pub origin: Point3<T>,
    /// Ray direction vector (not necessarily normalized)
    pub dir: Vec3<T>,
}

/// The fixed intersection tolerance 1e-8, built as the reciprocal of 10^8.
/// It is a constant, not scaled to input magnitude: callers working at very
/// different length scales must rescale inputs.
pub open spec fn spec_ray_epsilon<T: Float>() -> T {
    T::from_u32_spec(100000000).recip_spec()
}

/// The Moller-Trumbore cascade: reject as parallel when |det| is below the
/// fixed epsilon; compute barycentric u and reject outside [0,1]; compute
/// barycentric v and reject when v < 0 or u + v > 1; accept only when the ray
/// parameter t strictly exceeds the epsilon (intersections behind or at the
/// origin are rejected).
pub open spec fn spec_ray_intersects_triangle<T: Float>(
    ray: Ray<T>,
    a: Point3<T>,
    b: Point3<T>,
    c: Point3<T>,
) -> Option<(T, T, T)> {
    let epsilon = spec_ray_epsilon::<T>();
    let edge1 = b.sub_spec(a);
    let edge2 = c.sub_spec(a);
    let pvec = ray.dir.cross_spec(edge2);
    let det = edge1.dot_spec(pvec);
    if det.abs_spec().lt_spec(epsilon) {
        None
    } else {
        let inv_det = det.recip_spec();
        let tvec = ray.origin.sub_spec(a);
        let u = tvec.dot_spec(pvec).mul_spec(inv_det);
        if u.lt_spec(T::zero_spec()) || T::one_spec().lt_spec(u) {
            None
        } else {
            let qvec = tvec.cross_spec(edge1);
            let v = ray.dir.dot_spec(qvec).mul_spec(inv_det);
            if v.lt_spec(T::zero_spec()) || T::one_spec().lt_spec(u.add_spec(v)) {
                None
            } else {
                let t = edge2.dot_spec(qvec).mul_spec(inv_det);
                if epsilon.lt_spec(t) {
                    Some((t, u, v))
                } else {
                    None
                }
            }
        }
    }
}

/// If the ray intersects the triangle (a,b,c), returns `Some((t,u,v))` where
/// the intersection is origin + t*dir and (u,v) are barycentric coordinates;
/// otherwise returns `None` (parallel ray, barycentric coordinates outside
/// the triangle, or intersection not strictly in front of the origin).
pub fn ray_intersects_triangle<T: Float>(
    ray: Ray<T>,
    a: Point3<T>,
    b: Point3<T>,
    c: Point3<T>,
) -> (r: Option<(T, T, T)>)
    ensures
        r == spec_ray_intersects_triangle(ray, a, b, c),
        r matches Some(hit) ==> spec_ray_epsilon::<T>().lt_spec(hit.0),
        r matches Some(hit) ==> !hit.1.lt_spec(T::zero_spec()) && !T::one_spec().lt_spec(hit.1),
        r matches Some(hit) ==> !hit.2.lt_spec(T::zero_spec()) && !T::one_spec().lt_spec(
            hit.1.add_spec(hit.2),
        ),
{
    let epsilon = T::from_u32(100000000).recip();
    let edge1 = b.sub(a);
    let edge2 = c.sub(a);
    let pvec = ray.dir.cross(edge2);
    let det = edge1.dot(pvec);
    if det.abs().lt(epsilon) {
        return None;  // parallel
    }
    let inv_det = det.recip();
    let tvec = ray.origin.sub(a);
    let u = tvec.dot(pvec).mul(inv_det);
    if u.lt(T::zero()) || T::one().lt(u) {
        return None;
    }
    let qvec = tvec.cross(edge1);
    let v = ray.dir.dot(qvec).mul(inv_det);
    if v.lt(T::zero()) || T::one().lt(u.add(v)) {
        return None;
    }
    let t = edge2.dot(qvec).mul(inv_det);
    if epsilon.lt(t) {
        Some((t, u, v))
    } else {
        None
    }
}

} // verus!
