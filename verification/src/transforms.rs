//! 3D affine transforms: a 3x3 linear part plus a translation.

use vstd::prelude::*;

use crate::float::Float;
use crate::point::Point3;
use crate::vec::Vec3;

verus! {

/// 3x3 matrix + translation = affine transform in 3-space.
#[derive(Clone, Copy, Debug, PartialEq)]
pub struct Transform3<T: Float> {
    /// 3x3 matrix for the linear part of the transform
    pub m: [[T; 3]; 3],
    /// Translation vector
    pub t: Vec3<T>,
}

/// The 2x2 determinant pattern `a*d - b*c` used by the cofactor expansion.
pub open spec fn spec_minor2<T: Float>(a: T, b: T, c: T, d: T) -> T {
    a.mul_spec(d).sub_spec(b.mul_spec(c))
}

/// Cofactor expansion of the 3x3 determinant along the first row,
/// `m00*(m11*m22 - m12*m21) - m01*(m10*m22 - m12*m20) + m02*(m10*m21 - m11*m20)`.
pub open spec fn spec_transform3_det<T: Float>(tf: Transform3<T>) -> T {
    let m = tf.m;
    m[0][0].mul_spec(spec_minor2(m[1][1], m[1][2], m[2][1], m[2][2])).sub_spec(
        m[0][1].mul_spec(spec_minor2(m[1][0], m[1][2], m[2][0], m[2][2])),
    ).add_spec(m[0][2].mul_spec(spec_minor2(m[1][0], m[1][1], m[2][0], m[2][1])))
}

/// `M . p + t`, componentwise, each row summed left to right.
pub open spec fn spec_transform_point<T: Float>(tf: Transform3<T>, p: Point3<T>) -> Point3<T> {
    let m = tf.m;
    Point3 {
        x: m[0][0].mul_spec(p.x).add_spec(m[0][1].mul_spec(p.y)).add_spec(
            m[0][2].mul_spec(p.z),
        ).add_spec(tf.t.x),
        y: m[1][0].mul_spec(p.x).add_spec(m[1][1].mul_spec(p.y)).add_spec(
            m[1][2].mul_spec(p.z),
        ).add_spec(tf.t.y),
        z: m[2][0].mul_spec(p.x).add_spec(m[2][1].mul_spec(p.y)).add_spec(
            m[2][2].mul_spec(p.z),
        ).add_spec(tf.t.z),
    }
}

/// `M . v`, componentwise, without the translation.
pub open spec fn spec_transform_vec<T: Float>(tf: Transform3<T>, v: Vec3<T>) -> Vec3<T> {
    let m = tf.m;
    Vec3 {
        x: m[0][0].mul_spec(v.x).add_spec(m[0][1].mul_spec(v.y)).add_spec(m[0][2].mul_spec(v.z)),
        y: m[1][0].mul_spec(v.x).add_spec(m[1][1].mul_spec(v.y)).add_spec(m[1][2].mul_spec(v.z)),
        z: m[2][0].mul_spec(v.x).add_spec(m[2][1].mul_spec(v.y)).add_spec(m[2][2].mul_spec(v.z)),
    }
}

/// Row `i` of the adjugate-times-`1/det` inverse matrix of `tf`, as the
/// cofactor expressions the inverse computes, each scaled by `inv_det`.
pub open spec fn spec_inverse_row<T: Float>(tf: Transform3<T>, inv_det: T, i: int) -> [T; 3] {
    let m = tf.m;
    if i == 0 {
        [
            spec_minor2(m[1][1], m[1][2], m[2][1], m[2][2]).mul_spec(inv_det),
            spec_minor2(m[0][1], m[0][2], m[2][1], m[2][2]).neg_spec().mul_spec(inv_det),
            spec_minor2(m[0][1], m[0][2], m[1][1], m[1][2]).mul_spec(inv_det),
        ]
    } else if i == 1 {
        [
            spec_minor2(m[1][0], m[1][2], m[2][0], m[2][2]).neg_spec().mul_spec(inv_det),
            spec_minor2(m[0][0], m[0][2], m[2][0], m[2][2]).mul_spec(inv_det),
            spec_minor2(m[0][0], m[0][2], m[1][0], m[1][2]).neg_spec().mul_spec(inv_det),
        ]
    } else {
        [
            spec_minor2(m[1][0], m[1][1], m[2][0], m[2][1]).mul_spec(inv_det),
            spec_minor2(m[0][0], m[0][1], m[2][0], m[2][1]).neg_spec().mul_spec(inv_det),
            spec_minor2(m[0][0], m[0][1], m[1][0], m[1][1]).mul_spec(inv_det),
        ]
    }
}

/// The inverse transform: `None` when |det| is below machine epsilon, else
/// the adjugate scaled by `1/det` together with the translation `-M^-1 . t`.
pub open spec fn spec_transform3_inverse<T: Float>(tf: Transform3<T>) -> Option<Transform3<T>> {
    let det = spec_transform3_det(tf);
    if det.abs_spec().lt_spec(T::epsilon_spec()) {
        None
    } else {
        let inv_det = T::one_spec().div_spec(det);
        let adj = [
            spec_inverse_row(tf, inv_det, 0),
            spec_inverse_row(tf, inv_det, 1),
            spec_inverse_row(tf, inv_det, 2),
        ];
        let t = tf.t;
        let inv_t = Vec3 {
            x: adj[0][0].mul_spec(t.x).add_spec(adj[0][1].mul_spec(t.y)).add_spec(
                adj[0][2].mul_spec(t.z),
            ).neg_spec(),
            y: adj[1][0].mul_spec(t.x).add_spec(adj[1][1].mul_spec(t.y)).add_spec(
                adj[1][2].mul_spec(t.z),
            ).neg_spec(),
            z: adj[2][0].mul_spec(t.x).add_spec(adj[2][1].mul_spec(t.y)).add_spec(
                adj[2][2].mul_spec(t.z),
            ).neg_spec(),
        };
        Some(Transform3 { m: adj, t: inv_t })
    }
}

impl<T: Float> Transform3<T> {
    /// Identity transform: the unit matrix and the zero translation.
    pub fn identity() -> (r: Self)
        ensures
            r.m@ =~= seq![
                [T::one_spec(), T::zero_spec(), T::zero_spec()],
                [T::zero_spec(), T::one_spec(), T::zero_spec()],
                [T::zero_spec(), T::zero_spec(), T::one_spec()],
            ],
            r.t == (Vec3 { x: T::zero_spec(), y: T::zero_spec(), z: T::zero_spec() }),
    {
        Transform3 {
            m: [
                [T::one(), T::zero(), T::zero()],
                [T::zero(), T::one(), T::zero()],
                [T::zero(), T::zero(), T::one()],
            ],
            t: Vec3::new(T::zero(), T::zero(), T::zero()),
        }
    }

    /// Construct from a 3x3 matrix and a translation.
    pub fn new(m: [[T; 3]; 3], t: Vec3<T>) -> (r: Self)
        ensures
            r == (Transform3 { m, t }),
    {
        Transform3 { m, t }
    }

    /// Apply to a point: x maps to M.x + t.
    pub fn transform_point(&self, p: Point3<T>) -> (r: Point3<T>)
        ensures
            r == spec_transform_point(*self, p),
    {
        let x = self.m[0][0].mul(p.x).add(self.m[0][1].mul(p.y)).add(self.m[0][2].mul(p.z)).add(
            self.t.x,
        );
        let y = self.m[1][0].mul(p.x).add(self.m[1][1].mul(p.y)).add(self.m[1][2].mul(p.z)).add(
            self.t.y,
        );
        let z = self.m[2][0].mul(p.x).add(self.m[2][1].mul(p.y)).add(self.m[2][2].mul(p.z)).add(
            self.t.z,
        );
        Point3::new(x, y, z)
    }

    /// Apply to a vector (no translation).
    pub fn transform_vec(&self, v: Vec3<T>) -> (r: Vec3<T>)
        ensures
            r == spec_transform_vec(*self, v),
    {
        Vec3::new(
            self.m[0][0].mul(v.x).add(self.m[0][1].mul(v.y)).add(self.m[0][2].mul(v.z)),
            self.m[1][0].mul(v.x).add(self.m[1][1].mul(v.y)).add(self.m[1][2].mul(v.z)),
            self.m[2][0].mul(v.x).add(self.m[2][1].mul(v.y)).add(self.m[2][2].mul(v.z)),
        )
    }

    /// Invert the transform. Returns `None` exactly when the determinant's
    /// magnitude is below the scalar's machine epsilon.
    pub fn inverse(&self) -> (r: Option<Transform3<T>>)
        ensures
            r == spec_transform3_inverse(*self),
            r is None <==> spec_transform3_det(*self).abs_spec().lt_spec(T::epsilon_spec()),
    {
        let m = &self.m;
        let det = m[0][0].mul(m[1][1].mul(m[2][2]).sub(m[1][2].mul(m[2][1]))).sub(
            m[0][1].mul(m[1][0].mul(m[2][2]).sub(m[1][2].mul(m[2][0]))),
        ).add(m[0][2].mul(m[1][0].mul(m[2][1]).sub(m[1][1].mul(m[2][0]))));
        if det.abs().lt(T::epsilon()) {
            return None;
        }
        let inv_det = T::one().div(det);
        let adj = [
            [
                m[1][1].mul(m[2][2]).sub(m[1][2].mul(m[2][1])).mul(inv_det),
                m[0][1].mul(m[2][2]).sub(m[0][2].mul(m[2][1])).neg().mul(inv_det),
                m[0][1].mul(m[1][2]).sub(m[0][2].mul(m[1][1])).mul(inv_det),
            ],
            [
                m[1][0].mul(m[2][2]).sub(m[1][2].mul(m[2][0])).neg().mul(inv_det),
                m[0][0].mul(m[2][2]).sub(m[0][2].mul(m[2][0])).mul(inv_det),
                m[0][0].mul(m[1][2]).sub(m[0][2].mul(m[1][0])).neg().mul(inv_det),
            ],
            [
                m[1][0].mul(m[2][1]).sub(m[1][1].mul(m[2][0])).mul(inv_det),
                m[0][0].mul(m[2][1]).sub(m[0][1].mul(m[2][0])).neg().mul(inv_det),
                m[0][0].mul(m[1][1]).sub(m[0][1].mul(m[1][0])).mul(inv_det),
            ],
        ];
        let inv_t = Vec3::new(
            adj[0][0].mul(self.t.x).add(adj[0][1].mul(self.t.y)).add(adj[0][2].mul(self.t.z)).neg(),
            adj[1][0].mul(self.t.x).add(adj[1][1].mul(self.t.y)).add(adj[1][2].mul(self.t.z)).neg(),
            adj[2][0].mul(self.t.x).add(adj[2][1].mul(self.t.y)).add(adj[2][2].mul(self.t.z)).neg(),
        );
        proof {
            let spec_adj = [
                spec_inverse_row(*self, T::one_spec().div_spec(spec_transform3_det(*self)), 0),
                spec_inverse_row(*self, T::one_spec().div_spec(spec_transform3_det(*self)), 1),
                spec_inverse_row(*self, T::one_spec().div_spec(spec_transform3_det(*self)), 2),
            ];
            assert(adj@ =~= spec_adj@);
        }
        Some(Transform3 { m: adj, t: inv_t })
    }
}

} // verus!
