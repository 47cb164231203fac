//! Geometry kernel for mesh-based numerical methods: 2D/3D points and
//! vectors over an abstract floating-point scalar, closed-form metrics
//! (areas, volumes, centroids, normals), geometric queries (point-in-polygon,
//! ray-triangle intersection, distances) and the Newton inverse mapping for
//! bilinear quadrilateral elements.
//!
//! Every routine carries a contract that pins its result to a specification
//! formula over the scalar algebra of the [`Float`] trait.

use vstd::prelude::*;

pub mod float;
pub mod metrics;
pub mod point;
pub mod queries;
pub mod transforms;
pub mod utils;
pub mod vec;

pub use float::Float;
pub use metrics::{quad_area, triangle_area};
pub use metrics::{hexahedron_centroid, quad_centroid, tetrahedron_centroid, triangle_centroid};
pub use metrics::{face_normal, projected_area};
pub use metrics::{polygon_area, polygon_centroid};
pub use metrics::{prism_centroid, prism_volume};
pub use metrics::{hexahedron_volume, tetrahedron_volume};
pub use point::{Point2, Point3};
pub use queries::point_in_polygon;
pub use queries::{point_to_polygon_distance, point_to_segment_distance,
    point_to_triangle_distance};
pub use queries::{ray_intersects_triangle, Ray};
pub use transforms::Transform3;
pub use utils::aabb::Aabb;
pub use utils::jacobian::{invert_quad_mapping, Jacobian2x2};
pub use utils::{aabb, jacobian};
pub use vec::{Vec2, Vec3};

verus! {

/// Cyclic vertex index: reduces `i` into `[0, n)` for `i` in `[0, 2n)`,
/// closing a polygon's edge list back onto its first vertices.
pub open spec fn spec_wrap_index(i: int, n: int) -> int {
    if i < n {
        i
    } else {
        i - n
    }
}

} // verus!
