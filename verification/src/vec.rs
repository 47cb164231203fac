//! 2D/3D vector types and operations.

use vstd::prelude::*;

use crate::float::Float;

verus! {

/// A 2D vector.
#[derive(Clone, Copy, Debug, PartialEq)]
pub struct Vec2<T: Float> {
    /// X component
    pub x: T,
    /// Y component
    pub y: T,
}

impl<T: Float> Vec2<T> {
    /// Create a new Vec2.
    pub fn new(x: T, y: T) -> (r: Self)
        ensures
            r == (Vec2 { x, y }),
    {
        Vec2 { x, y }
    }

    /// Dot product `x*x' + y*y'`.
    pub open spec fn dot_spec(self, other: Vec2<T>) -> T {
        self.x.mul_spec(other.x).add_spec(self.y.mul_spec(other.y))
    }

    /// Dot product.
    pub fn dot(self, other: Vec2<T>) -> (r: T)
        ensures
            r == self.dot_spec(other),
    {
        self.x.mul(other.x).add(self.y.mul(other.y))
    }

    /// Length: the square root of the dot product with itself.
    pub open spec fn magnitude_spec(self) -> T {
        self.dot_spec(self).sqrt_spec()
    }

    /// Length (magnitude).
    pub fn magnitude(self) -> (r: T)
        ensures
            r == self.magnitude_spec(),
    {
        self.dot(self).sqrt()
    }

    /// 2D scalar cross product `x*y' - x'*y`.
    pub open spec fn cross_spec(self, other: Vec2<T>) -> T {
        self.x.mul_spec(other.y).sub_spec(self.y.mul_spec(other.x))
    }

    /// Cross-scalar (2D pseudo-cross).
    pub fn cross(self, other: Vec2<T>) -> (r: T)
        ensures
            r == self.cross_spec(other),
    {
        self.x.mul(other.y).sub(self.y.mul(other.x))
    }

    /// Componentwise sum.
    pub open spec fn add_spec(self, rhs: Vec2<T>) -> Vec2<T> {
        Vec2 { x: self.x.add_spec(rhs.x), y: self.y.add_spec(rhs.y) }
    }

    /// Vector + vector.
    pub fn add(self, rhs: Vec2<T>) -> (r: Vec2<T>)
        ensures
            r == self.add_spec(rhs),
    {
        Vec2::new(self.x.add(rhs.x), self.y.add(rhs.y))
    }

    /// Componentwise difference.
    pub open spec fn sub_spec(self, rhs: Vec2<T>) -> Vec2<T> {
        Vec2 { x: self.x.sub_spec(rhs.x), y: self.y.sub_spec(rhs.y) }
    }

    /// Vector - vector.
    pub fn sub(self, rhs: Vec2<T>) -> (r: Vec2<T>)
        ensures
            r == self.sub_spec(rhs),
    {
        Vec2::new(self.x.sub(rhs.x), self.y.sub(rhs.y))
    }

    /// Componentwise scaling.
    pub open spec fn mul_spec(self, rhs: T) -> Vec2<T> {
        Vec2 { x: self.x.mul_spec(rhs), y: self.y.mul_spec(rhs) }
    }

    /// Scalar multiplication.
    pub fn mul(self, rhs: T) -> (r: Vec2<T>)
        ensures
            r == self.mul_spec(rhs),
    {
        Vec2::new(self.x.mul(rhs), self.y.mul(rhs))
    }
}

/// A 3D vector.
#[derive(Clone, Copy, Debug, PartialEq)]
pub struct Vec3<T: Float> {
    /// X component
    pub x: T,
    /// Y component
    pub y: T,
    /// Z component
    pub z: T,
}

impl<T: Float> Vec3<T> {
    /// Create a new Vec3.
    pub fn new(x: T, y: T, z: T) -> (r: Self)
        ensures
            r == (Vec3 { x, y, z }),
    {
        Vec3 { x, y, z }
    }

    /// Dot product `x*x' + y*y' + z*z'`, summed left to right.
    pub open spec fn dot_spec(self, other: Vec3<T>) -> T {
        self.x.mul_spec(other.x).add_spec(self.y.mul_spec(other.y)).add_spec(
            self.z.mul_spec(other.z),
        )
    }

    /// Dot product.
    pub fn dot(self, other: Vec3<T>) -> (r: T)
        ensures
            r == self.dot_spec(other),
    {
        self.x.mul(other.x).add(self.y.mul(other.y)).add(self.z.mul(other.z))
    }

    /// Cross product, componentwise `(y*z' - z*y', z*x' - x*z', x*y' - y*x')`.
    pub open spec fn cross_spec(self, other: Vec3<T>) -> Vec3<T> {
        Vec3 {
            x: self.y.mul_spec(other.z).sub_spec(self.z.mul_spec(other.y)),
            y: self.z.mul_spec(other.x).sub_spec(self.x.mul_spec(other.z)),
            z: self.x.mul_spec(other.y).sub_spec(self.y.mul_spec(other.x)),
        }
    }

    /// Cross product.
    pub fn cross(self, other: Vec3<T>) -> (r: Vec3<T>)
        ensures
            r == self.cross_spec(other),
    {
        Vec3::new(
            self.y.mul(other.z).sub(self.z.mul(other.y)),
            self.z.mul(other.x).sub(self.x.mul(other.z)),
            self.x.mul(other.y).sub(self.y.mul(other.x)),
        )
    }

    /// Length: the square root of the dot product with itself.
    pub open spec fn magnitude_spec(self) -> T {
        self.dot_spec(self).sqrt_spec()
    }

    /// Length (magnitude).
    pub fn magnitude(self) -> (r: T)
        ensures
            r == self.magnitude_spec(),
    {
        self.dot(self).sqrt()
    }

    /// Componentwise sum.
    pub open spec fn add_spec(self, rhs: Vec3<T>) -> Vec3<T> {
        Vec3 {
            x: self.x.add_spec(rhs.x),
            y: self.y.add_spec(rhs.y),
            z: self.z.add_spec(rhs.z),
        }
    }

    /// Vector + vector.
    pub fn add(self, rhs: Vec3<T>) -> (r: Vec3<T>)
        ensures
            r == self.add_spec(rhs),
    {
        Vec3::new(self.x.add(rhs.x), self.y.add(rhs.y), self.z.add(rhs.z))
    }

    /// Componentwise difference.
    pub open spec fn sub_spec(self, rhs: Vec3<T>) -> Vec3<T> {
        Vec3 {
            x: self.x.sub_spec(rhs.x),
            y: self.y.sub_spec(rhs.y),
            z: self.z.sub_spec(rhs.z),
        }
    }

    /// Vector - vector.
    pub fn sub(self, rhs: Vec3<T>) -> (r: Vec3<T>)
        ensures
            r == self.sub_spec(rhs),
    {
        Vec3::new(self.x.sub(rhs.x), self.y.sub(rhs.y), self.z.sub(rhs.z))
    }

    /// Componentwise scaling.
    pub open spec fn mul_spec(self, rhs: T) -> Vec3<T> {
        Vec3 { x: self.x.mul_spec(rhs), y: self.y.mul_spec(rhs), z: self.z.mul_spec(rhs) }
    }

    /// Scalar multiplication.
    pub fn mul(self, rhs: T) -> (r: Vec3<T>)
        ensures
            r == self.mul_spec(rhs),
    {
        Vec3::new(self.x.mul(rhs), self.y.mul(rhs), self.z.mul(rhs))
    }
}

} // verus!
