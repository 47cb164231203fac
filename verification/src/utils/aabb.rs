//! Axis-aligned bounding boxes in 3D.

use vstd::prelude::*;

use crate::float::Float;
use crate::point::Point3;

verus! {

/// Axis-aligned bounding box in 3D.
#[derive(Clone, Copy, Debug, PartialEq)]
pub struct Aabb<T: Float> {
    /// Minimum corner of the bounding box
    pub min: Point3<T>,
    /// Maximum corner of the bounding box
    pub max: Point3<T>,
}

/// The empty box: min at positive infinity, max at negative infinity, so
/// that the first point grown into it becomes both corners.
pub open spec fn spec_aabb_empty<T: Float>() -> Aabb<T> {
    Aabb {
        min: Point3 {
            x: T::infinity_spec(),
            y: T::infinity_spec(),
            z: T::infinity_spec(),
        },
        max: Point3 {
            x: T::neg_infinity_spec(),
            y: T::neg_infinity_spec(),
            z: T::neg_infinity_spec(),
        },
    }
}

/// The box extended to include `p`: each min corner coordinate is the min
/// of the old one and `p`'s, each max corner coordinate the max.
pub open spec fn spec_aabb_grow<T: Float>(bb: Aabb<T>, p: Point3<T>) -> Aabb<T> {
    Aabb {
        min: Point3 {
            x: bb.min.x.min_spec(p.x),
            y: bb.min.y.min_spec(p.y),
            z: bb.min.z.min_spec(p.z),
        },
        max: Point3 {
            x: bb.max.x.max_spec(p.x),
            y: bb.max.y.max_spec(p.y),
            z: bb.max.z.max_spec(p.z),
        },
    }
}

/// Left fold of [`spec_aabb_grow`] over the first `k` points, from the empty
/// box.
pub open spec fn spec_aabb_from_points<T: Float>(s: Seq<Point3<T>>, k: int) -> Aabb<T>
    decreases k,
{
    if k <= 0 {
        spec_aabb_empty::<T>()
    } else {
        spec_aabb_grow(spec_aabb_from_points(s, k - 1), s[k - 1])
    }
}

/// Boxes overlap unless one lies strictly beyond the other on some axis.
pub open spec fn spec_aabb_intersects<T: Float>(a: Aabb<T>, b: Aabb<T>) -> bool {
    !(a.max.x.lt_spec(b.min.x) || b.max.x.lt_spec(a.min.x) || a.max.y.lt_spec(b.min.y)
        || b.max.y.lt_spec(a.min.y) || a.max.z.lt_spec(b.min.z) || b.max.z.lt_spec(a.min.z))
}

/// A point is contained when every coordinate lies inclusively between the
/// corners.
pub open spec fn spec_aabb_contains<T: Float>(bb: Aabb<T>, p: Point3<T>) -> bool {
    bb.min.x.le_spec(p.x) && p.x.le_spec(bb.max.x) && bb.min.y.le_spec(p.y) && p.y.le_spec(
        bb.max.y,
    ) && bb.min.z.le_spec(p.z) && p.z.le_spec(bb.max.z)
}

impl<T: Float> Aabb<T> {
    /// Empty box: min = +infinity, max = -infinity.
    pub fn empty() -> (r: Self)
        ensures
            r == spec_aabb_empty::<T>(),
    {
        let inf = T::infinity();
        let neg = T::neg_infinity();
        Aabb { min: Point3::new(inf, inf, inf), max: Point3::new(neg, neg, neg) }
    }

    /// Build the bounding box of a list of points: the empty box grown over
    /// each point in order. An empty list yields the empty box.
    pub fn from_points(pts: &[Point3<T>]) -> (r: Self)
        ensures
            r == spec_aabb_from_points(pts@, pts@.len() as int),
    {
        let mut bb: Aabb<T> = Aabb::empty();
        let n = pts.len();
        let mut i: usize = 0;
        while i < n
            invariant
                n == pts@.len(),
                i <= n,
                bb == spec_aabb_from_points(pts@, i as int),
            decreases n - i,
        {
            let p = pts[i];
            bb.min.x = bb.min.x.min(p.x);
            bb.min.y = bb.min.y.min(p.y);
            bb.min.z = bb.min.z.min(p.z);
            bb.max.x = bb.max.x.max(p.x);
            bb.max.y = bb.max.y.max(p.y);
            bb.max.z = bb.max.z.max(p.z);
            i += 1;
        }
        bb
    }

    /// Extend this box to include `p`.
    pub fn grow(&mut self, p: Point3<T>)
        ensures
            *final(self) == spec_aabb_grow(*old(self), p),
    {
        self.min.x = self.min.x.min(p.x);
        self.min.y = self.min.y.min(p.y);
        self.min.z = self.min.z.min(p.z);
        self.max.x = self.max.x.max(p.x);
        self.max.y = self.max.y.max(p.y);
        self.max.z = self.max.z.max(p.z);
    }

    /// Test intersection with another AABB.
    pub fn intersects(&self, other: &Aabb<T>) -> (r: bool)
        ensures
            r == spec_aabb_intersects(*self, *other),
    {
        !(self.max.x.lt(other.min.x) || other.max.x.lt(self.min.x) || self.max.y.lt(other.min.y)
            || other.max.y.lt(self.min.y) || self.max.z.lt(other.min.z) || other.max.z.lt(
            self.min.z,
        ))
    }

    /// Test whether `p` is inside (inclusive on every face).
    pub fn contains(&self, p: Point3<T>) -> (r: bool)
        ensures
            r == spec_aabb_contains(*self, p),
    {
        self.min.x.le(p.x) && p.x.le(self.max.x) && self.min.y.le(p.y) && p.y.le(self.max.y)
            && self.min.z.le(p.z) && p.z.le(self.max.z)
    }
}

} // verus!
