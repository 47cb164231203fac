//! Utility modules: axis-aligned bounding boxes and Jacobians for
//! isoparametric cells.

pub mod aabb;
pub mod jacobian;
