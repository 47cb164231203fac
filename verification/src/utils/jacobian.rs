//! Jacobians for bilinear quadrilateral elements and the Newton inverse
//! mapping from a physical point to reference coordinates.

use vstd::prelude::*;

use crate::float::Float;
use crate::point::Point2;

verus! {

/// 2x2 Jacobian matrix for a bilinear quad with nodes [A,B,C,D] at
/// reference coordinates (-1,-1), (1,-1), (1,1), (-1,1).
#[derive(Clone, Copy, Debug, PartialEq)]
pub struct Jacobian2x2<T: Float> {
    /// Entry (1,1) of the Jacobian matrix
    pub m11: T,
    /// Entry (1,2) of the Jacobian matrix
    pub m12: T,
    /// Entry (2,1) of the Jacobian matrix
    pub m21: T,
    /// Entry (2,2) of the Jacobian matrix
    pub m22: T,
}

/// The Jacobian entries at (xi, eta): each entry is a shape-function
/// derivative combination weighted by the quad's physical corner coordinates,
/// summed over the four nodes left to right.
pub open spec fn spec_jacobian_for_quad<T: Float>(
    xi: T,
    eta: T,
    a: Point2<T>,
    b: Point2<T>,
    c: Point2<T>,
    d: Point2<T>,
) -> Jacobian2x2<T> {
    let one = T::one_spec();
    let d1x = one.neg_spec().add_spec(eta);
    let d1e = one.neg_spec().add_spec(xi);
    let d2x = one.sub_spec(eta);
    let d2e = one.neg_spec().sub_spec(xi);
    let d3x = one.add_spec(eta);
    let d3e = one.add_spec(xi);
    let d4x = one.neg_spec().sub_spec(eta);
    let d4e = one.sub_spec(xi);
    Jacobian2x2 {
        m11: d1x.mul_spec(a.x).add_spec(d2x.mul_spec(b.x)).add_spec(d3x.mul_spec(c.x)).add_spec(
            d4x.mul_spec(d.x),
        ),
        m12: d1e.mul_spec(a.x).add_spec(d2e.mul_spec(b.x)).add_spec(d3e.mul_spec(c.x)).add_spec(
            d4e.mul_spec(d.x),
        ),
        m21: d1x.mul_spec(a.y).add_spec(d2x.mul_spec(b.y)).add_spec(d3x.mul_spec(c.y)).add_spec(
            d4x.mul_spec(d.y),
        ),
        m22: d1e.mul_spec(a.y).add_spec(d2e.mul_spec(b.y)).add_spec(d3e.mul_spec(c.y)).add_spec(
            d4e.mul_spec(d.y),
        ),
    }
}

/// `m11*m22 - m12*m21`.
pub open spec fn spec_jacobian_det<T: Float>(j: Jacobian2x2<T>) -> T {
    j.m11.mul_spec(j.m22).sub_spec(j.m12.mul_spec(j.m21))
}

/// The 2x2 inverse: `None` when |det| is below machine epsilon, else the
/// swapped-and-negated entries scaled by `1/det`.
pub open spec fn spec_jacobian_inverse<T: Float>(j: Jacobian2x2<T>) -> Option<Jacobian2x2<T>> {
    let d = spec_jacobian_det(j);
    if d.abs_spec().lt_spec(T::epsilon_spec()) {
        None
    } else {
        let inv = T::one_spec().div_spec(d);
        Some(
            Jacobian2x2 {
                m11: j.m22.mul_spec(inv),
                m12: j.m12.neg_spec().mul_spec(inv),
                m21: j.m21.neg_spec().mul_spec(inv),
                m22: j.m11.mul_spec(inv),
            },
        )
    }
}

impl<T: Float> Jacobian2x2<T> {
    /// Compute J(xi,eta) from the shape-function derivatives of the four
    /// nodes, weighted by the quad's physical corners.
    pub fn for_quad(xi: T, eta: T, a: Point2<T>, b: Point2<T>, c: Point2<T>, d: Point2<T>) -> (r:
        Self)
        ensures
            r == spec_jacobian_for_quad(xi, eta, a, b, c, d),
    {
        let one = T::one();
        let d_n1_dxi = one.neg().add(eta);
        let d_n1_deta = one.neg().add(xi);
        let d_n2_dxi = one.sub(eta);
        let d_n2_deta = one.neg().sub(xi);
        let d_n3_dxi = one.add(eta);
        let d_n3_deta = one.add(xi);
        let d_n4_dxi = one.neg().sub(eta);
        let d_n4_deta = one.sub(xi);
        let m11 = d_n1_dxi.mul(a.x).add(d_n2_dxi.mul(b.x)).add(d_n3_dxi.mul(c.x)).add(
            d_n4_dxi.mul(d.x),
        );
        let m12 = d_n1_deta.mul(a.x).add(d_n2_deta.mul(b.x)).add(d_n3_deta.mul(c.x)).add(
            d_n4_deta.mul(d.x),
        );
        let m21 = d_n1_dxi.mul(a.y).add(d_n2_dxi.mul(b.y)).add(d_n3_dxi.mul(c.y)).add(
            d_n4_dxi.mul(d.y),
        );
        let m22 = d_n1_deta.mul(a.y).add(d_n2_deta.mul(b.y)).add(d_n3_deta.mul(c.y)).add(
            d_n4_deta.mul(d.y),
        );
        Jacobian2x2 { m11, m12, m21, m22 }
    }

    /// Determinant det(J).
    pub fn det(self) -> (r: T)
        ensures
            r == spec_jacobian_det(self),
    {
        self.m11.mul(self.m22).sub(self.m12.mul(self.m21))
    }

    /// Inverse J^-1. Returns `None` exactly when the determinant's magnitude
    /// is below the scalar's machine epsilon (a degenerate or inverted
    /// element).
    pub fn inverse(self) -> (r: Option<Jacobian2x2<T>>)
        ensures
            r == spec_jacobian_inverse(self),
            r is None <==> spec_jacobian_det(self).abs_spec().lt_spec(T::epsilon_spec()),
    {
        let d = self.det();
        if d.abs().lt(T::epsilon()) {
            return None;
        }
        let inv = T::one().div(d);
        Some(
            Jacobian2x2 {
                m11: self.m22.mul(inv),
                m12: self.m12.neg().mul(inv),
                m21: self.m21.neg().mul(inv),
                m22: self.m11.mul(inv),
            },
        )
    }
}

/// The physical point the bilinear map sends (xi, eta) to: the four shape
/// functions `(1 +- xi)(1 +- eta)/4` weighted by the corner coordinates.
pub open spec fn spec_quad_map_point<T: Float>(
    xi: T,
    eta: T,
    a: Point2<T>,
    b: Point2<T>,
    c: Point2<T>,
    d: Point2<T>,
) -> Point2<T> {
    let one = T::one_spec();
    let four = T::from_u32_spec(4);
    let n1 = one.sub_spec(xi).mul_spec(one.sub_spec(eta)).div_spec(four);
    let n2 = one.add_spec(xi).mul_spec(one.sub_spec(eta)).div_spec(four);
    let n3 = one.add_spec(xi).mul_spec(one.add_spec(eta)).div_spec(four);
    let n4 = one.sub_spec(xi).mul_spec(one.add_spec(eta)).div_spec(four);
    Point2 {
        x: a.x.mul_spec(n1).add_spec(b.x.mul_spec(n2)).add_spec(c.x.mul_spec(n3)).add_spec(
            d.x.mul_spec(n4),
        ),
        y: a.y.mul_spec(n1).add_spec(b.y.mul_spec(n2)).add_spec(c.y.mul_spec(n3)).add_spec(
            d.y.mul_spec(n4),
        ),
    }
}

/// Whether both components of the residual between the bilinear map's value
/// at (xi, eta) and the target point are strictly within the tolerance.
pub open spec fn spec_residual_within<T: Float>(
    xi: T,
    eta: T,
    p: Point2<T>,
    a: Point2<T>,
    b: Point2<T>,
    c: Point2<T>,
    d: Point2<T>,
    tol: T,
) -> bool {
    let q = spec_quad_map_point(xi, eta, a, b, c, d);
    q.x.sub_spec(p.x).abs_spec().lt_spec(tol) && q.y.sub_spec(p.y).abs_spec().lt_spec(tol)
}

/// One Newton cascade with `iters` iterations left: succeed with the current
/// iterate when the residual is within tolerance; fail when the Jacobian is
/// singular or the iteration budget is exhausted; otherwise recurse on the
/// updated iterate `(xi, eta) - J^-1 . residual`.
pub open spec fn spec_newton_iterate<T: Float>(
    xi: T,
    eta: T,
    p: Point2<T>,
    a: Point2<T>,
    b: Point2<T>,
    c: Point2<T>,
    d: Point2<T>,
    tol: T,
    iters: nat,
) -> Option<(T, T)>
    decreases iters,
{
    if iters == 0 {
        None
    } else {
        let q = spec_quad_map_point(xi, eta, a, b, c, d);
        let rx = q.x.sub_spec(p.x);
        let ry = q.y.sub_spec(p.y);
        if rx.abs_spec().lt_spec(tol) && ry.abs_spec().lt_spec(tol) {
            Some((xi, eta))
        } else {
            match spec_jacobian_inverse(spec_jacobian_for_quad(xi, eta, a, b, c, d)) {
                Option::None => None,
                Option::Some(inv) => {
                    let dxi = inv.m11.mul_spec(rx).add_spec(inv.m12.mul_spec(ry));
                    let deta = inv.m21.mul_spec(rx).add_spec(inv.m22.mul_spec(ry));
                    spec_newton_iterate(
                        xi.sub_spec(dxi),
                        eta.sub_spec(deta),
                        p,
                        a,
                        b,
                        c,
                        d,
                        tol,
                        (iters - 1) as nat,
                    )
                },
            }
        }
    }
}

/// Given physical point `p` and quad corners `a,b,c,d`, find (xi, eta) by
/// Newton iteration from the caller-supplied initial guess. Succeeds with the
/// first iterate whose residual is within `tol` on both components; returns
/// `None` when the local Jacobian is singular or `max_iters` iterations are
/// exhausted (no partial result). No line search or damping is applied:
/// convergence is not guaranteed outside the quad's interior or for highly
/// skewed or inverted elements.
pub fn invert_quad_mapping<T: Float>(
    xi: T,
    eta: T,
    p: Point2<T>,
    a: Point2<T>,
    b: Point2<T>,
    c: Point2<T>,
    d: Point2<T>,
    tol: T,
    max_iters: usize,
) -> (r: Option<(T, T)>)
    ensures
        r == spec_newton_iterate(xi, eta, p, a, b, c, d, tol, max_iters as nat),
        r matches Some(s) ==> spec_residual_within(s.0, s.1, p, a, b, c, d, tol),
{
    let mut cur_xi = xi;
    let mut cur_eta = eta;
    let mut k: usize = 0;
    while k < max_iters
        invariant
            k <= max_iters,
            spec_newton_iterate(cur_xi, cur_eta, p, a, b, c, d, tol, (max_iters - k) as nat)
                == spec_newton_iterate(xi, eta, p, a, b, c, d, tol, max_iters as nat),
        decreases max_iters - k,
    {
        let one = T::one();
        let four = T::from_u32(4);
        let n1 = one.sub(cur_xi).mul(one.sub(cur_eta)).div(four);
        let n2 = one.add(cur_xi).mul(one.sub(cur_eta)).div(four);
        let n3 = one.add(cur_xi).mul(one.add(cur_eta)).div(four);
        let n4 = one.sub(cur_xi).mul(one.add(cur_eta)).div(four);
        let x = a.x.mul(n1).add(b.x.mul(n2)).add(c.x.mul(n3)).add(d.x.mul(n4));
        let y = a.y.mul(n1).add(b.y.mul(n2)).add(c.y.mul(n3)).add(d.y.mul(n4));
        let rx = x.sub(p.x);
        let ry = y.sub(p.y);
        if rx.abs().lt(tol) && ry.abs().lt(tol) {
            return Some((cur_xi, cur_eta));
        }
        let j = Jacobian2x2::for_quad(cur_xi, cur_eta, a, b, c, d);
        let inv_j = match j.inverse() {
            Option::Some(inv) => inv,
            Option::None => {
                return None;
            },
        };
        let dxi = inv_j.m11.mul(rx).add(inv_j.m12.mul(ry));
        let deta = inv_j.m21.mul(rx).add(inv_j.m22.mul(ry));
        cur_xi = cur_xi.sub(dxi);
        cur_eta = cur_eta.sub(deta);
        k += 1;
    }
    None
}

/// Whenever the Newton cascade reports success, the reference coordinates it
/// returns reproduce the target point through the bilinear map to within the
/// tolerance on both residual components.
pub proof fn lemma_newton_success_residual<T: Float>(
    xi: T,
    eta: T,
    p: Point2<T>,
    a: Point2<T>,
    b: Point2<T>,
    c: Point2<T>,
    d: Point2<T>,
    tol: T,
    iters: nat,
)
    ensures
        spec_newton_iterate(xi, eta, p, a, b, c, d, tol, iters) matches Some(s)
            ==> spec_residual_within(s.0, s.1, p, a, b, c, d, tol),
    decreases iters,
{
    if iters > 0 {
        let q = spec_quad_map_point(xi, eta, a, b, c, d);
        let rx = q.x.sub_spec(p.x);
        let ry = q.y.sub_spec(p.y);
        if !(rx.abs_spec().lt_spec(tol) && ry.abs_spec().lt_spec(tol)) {
            match spec_jacobian_inverse(spec_jacobian_for_quad(xi, eta, a, b, c, d)) {
                Option::None => {},
                Option::Some(inv) => {
                    let dxi = inv.m11.mul_spec(rx).add_spec(inv.m12.mul_spec(ry));
                    let deta = inv.m21.mul_spec(rx).add_spec(inv.m22.mul_spec(ry));
                    lemma_newton_success_residual(
                        xi.sub_spec(dxi),
                        eta.sub_spec(deta),
                        p,
                        a,
                        b,
                        c,
                        d,
                        tol,
                        (iters - 1) as nat,
                    );
                },
            }
        }
    }
}

} // verus!
