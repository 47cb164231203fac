//! Point2/Point3 definitions.
//!
//! A point is a coordinate tuple; the difference of two points is a vector,
//! and a point translated by a vector is again a point. Points are immutable
//! values: operations that "move" a point produce a new one.

use vstd::prelude::*;

use crate::float::Float;
use crate::vec::{Vec2, Vec3};

verus! {

/// A 2D point.
#[derive(Clone, Copy, Debug, PartialEq)]
pub struct Point2<T: Float> {
    /// X coordinate
    pub x: T,
    /// Y coordinate
    pub y: T,
}

impl<T: Float> Point2<T> {
    /// Create a new Point2.
    pub fn new(x: T, y: T) -> (r: Self)
        ensures
            r == (Point2 { x, y }),
    {
        Point2 { x, y }
    }

    /// Componentwise difference of two points, as a vector.
    pub open spec fn sub_spec(self, rhs: Point2<T>) -> Vec2<T> {
        Vec2 { x: self.x.sub_spec(rhs.x), y: self.y.sub_spec(rhs.y) }
    }

    /// Vector difference: `self - rhs`.
    pub fn sub(self, rhs: Point2<T>) -> (r: Vec2<T>)
        ensures
            r == self.sub_spec(rhs),
    {
        Vec2::new(self.x.sub(rhs.x), self.y.sub(rhs.y))
    }

    /// Componentwise translation of a point by a vector.
    pub open spec fn add_spec(self, v: Vec2<T>) -> Point2<T> {
        Point2 { x: self.x.add_spec(v.x), y: self.y.add_spec(v.y) }
    }

    /// Translate the point by `v`.
    pub fn add(self, v: Vec2<T>) -> (r: Point2<T>)
        ensures
            r == self.add_spec(v),
    {
        Point2::new(self.x.add(v.x), self.y.add(v.y))
    }
}

/// A 3D point.
#[derive(Clone, Copy, Debug, PartialEq)]
pub struct Point3<T: Float> {
    /// X coordinate
    pub x: T,
    /// Y coordinate
    pub y: T,
    /// Z coordinate
    pub z: T,
}

impl<T: Float> Point3<T> {
    /// Create a new Point3.
    pub fn new(x: T, y: T, z: T) -> (r: Self)
        ensures
            r == (Point3 { x, y, z }),
    {
        Point3 { x, y, z }
    }

    /// Componentwise difference of two points, as a vector.
    pub open spec fn sub_spec(self, rhs: Point3<T>) -> Vec3<T> {
        Vec3 {
            x: self.x.sub_spec(rhs.x),
            y: self.y.sub_spec(rhs.y),
            z: self.z.sub_spec(rhs.z),
        }
    }

    /// Vector difference: `self - rhs`.
    pub fn sub(self, rhs: Point3<T>) -> (r: Vec3<T>)
        ensures
            r == self.sub_spec(rhs),
    {
        Vec3::new(self.x.sub(rhs.x), self.y.sub(rhs.y), self.z.sub(rhs.z))
    }

    /// Componentwise translation of a point by a vector.
    pub open spec fn add_spec(self, v: Vec3<T>) -> Point3<T> {
        Point3 {
            x: self.x.add_spec(v.x),
            y: self.y.add_spec(v.y),
            z: self.z.add_spec(v.z),
        }
    }

    /// Translate the point by `v`.
    pub fn add(self, v: Vec3<T>) -> (r: Point3<T>)
        ensures
            r == self.add_spec(v),
    {
        Point3::new(self.x.add(v.x), self.y.add(v.y), self.z.add(v.z))
    }
}

} // verus!
