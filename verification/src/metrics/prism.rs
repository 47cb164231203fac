//! Prism metrics: volume and centroid for straight (right) prisms.

use vstd::prelude::*;

use crate::float::Float;
use crate::metrics::polygon::{polygon_area, polygon_centroid, spec_polygon_area,
    spec_polygon_centroid};
use crate::point::{Point2, Point3};

verus! {

/// Base polygon area times the extrusion height.
pub open spec fn spec_prism_volume<T: Float>(base: Seq<Point2<T>>, height: T) -> T {
    spec_polygon_area(base).mul_spec(height)
}

/// Volume of a straight prism: base area x height.
/// Fewer than 3 base vertices is a contract violation.
pub fn prism_volume<T: Float>(base: &[Point2<T>], height: T) -> (r: T)
    requires
        base@.len() >= 3,
    ensures
        r == spec_prism_volume(base@, height),
{
    polygon_area(base).mul(height)
}

/// The base centroid in the plane, lifted to `z0 + height/2`.
pub open spec fn spec_prism_centroid<T: Float>(
    base: Seq<Point2<T>>,
    height: T,
    z0: T,
) -> Point3<T> {
    let c2 = spec_polygon_centroid(base);
    Point3 { x: c2.x, y: c2.y, z: z0.add_spec(height.mul_spec(T::half_spec())) }
}

/// Centroid of a prism: (Cx, Cy) is the base centroid, Cz = z0 + height/2.
/// Valid only for a uniform straight extrusion.
/// Fewer than 3 base vertices is a contract violation.
pub fn prism_centroid<T: Float>(base: &[Point2<T>], height: T, z0: T) -> (r: Point3<T>)
    requires
        base@.len() >= 3,
    ensures
        r == spec_prism_centroid(base@, height, z0),
{
    let c2 = polygon_centroid(base);
    Point3::new(c2.x, c2.y, z0.add(height.mul(T::half())))
}

} // verus!
