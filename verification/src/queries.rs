//! Geometry queries: point-in-polygon, ray-triangle intersection, distances.

pub mod distance;
pub mod point_in_polygon;
pub mod ray_triangle;

pub use distance::{point_to_polygon_distance, point_to_segment_distance, point_to_triangle_distance};
pub use point_in_polygon::point_in_polygon;
pub use ray_triangle::{ray_intersects_triangle, Ray};
