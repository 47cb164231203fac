//! Cell metrics: area, centroid, volume, normals, polygon, prism.

pub mod area;
pub mod centroid;
pub mod normals;
pub mod polygon;
pub mod prism;
pub mod volume;

pub use area::{quad_area, triangle_area};
pub use centroid::{hexahedron_centroid, quad_centroid, tetrahedron_centroid, triangle_centroid};
pub use normals::{face_normal, projected_area};
pub use polygon::{polygon_area, polygon_centroid};
pub use prism::{prism_centroid, prism_volume};
pub use volume::{hexahedron_volume, tetrahedron_volume};
