//! Point-in-polygon classification by the winding-number test.

use vstd::prelude::*;

use crate::float::Float;
use crate::point::Point2;
use crate::spec_wrap_index;

verus! {

/// The signed "is-left" test: positive when `c` lies left of the directed
/// line from `a` to `b`, negative when right.
pub open spec fn spec_is_left<T: Float>(a: Point2<T>, b: Point2<T>, c: Point2<T>) -> T {
    b.x.sub_spec(a.x).mul_spec(c.y.sub_spec(a.y)).sub_spec(
        c.x.sub_spec(a.x).mul_spec(b.y.sub_spec(a.y)),
    )
}

fn is_left<T: Float>(a: Point2<T>, b: Point2<T>, c: Point2<T>) -> (r: T)
    ensures
        r == spec_is_left(a, b, c),
{
    b.x.sub(a.x).mul(c.y.sub(a.y)).sub(c.x.sub(a.x).mul(b.y.sub(a.y)))
}

/// The contribution of edge `i` to the winding number around `pt`, under the
/// half-open crossing rule: an upward crossing (lower endpoint's y <= pt.y,
/// upper endpoint's y strictly above) with `pt` left of the edge counts +1; a
/// downward crossing with `pt` right of the edge counts -1; all else 0.
pub open spec fn spec_winding_step<T: Float>(pt: Point2<T>, s: Seq<Point2<T>>, i: int) -> int {
    let n = s.len() as int;
    let p1 = s[i];
    let p2 = s[spec_wrap_index(i + 1, n)];
    if p1.y.le_spec(pt.y) {
        if pt.y.lt_spec(p2.y) && T::zero_spec().lt_spec(spec_is_left(p1, p2, pt)) {
            1
        } else {
            0
        }
    } else {
        if p2.y.le_spec(pt.y) && spec_is_left(p1, p2, pt).lt_spec(T::zero_spec()) {
            -1
        } else {
            0
        }
    }
}

/// The winding number accumulated over the first `k` edges.
pub open spec fn spec_winding_number<T: Float>(pt: Point2<T>, s: Seq<Point2<T>>, k: int) -> int
    decreases k,
{
    if k <= 0 {
        0
    } else {
        spec_winding_number(pt, s, k - 1) + spec_winding_step(pt, s, k - 1)
    }
}

/// A point is inside iff the full winding number is nonzero.
pub open spec fn spec_point_in_polygon<T: Float>(pt: Point2<T>, s: Seq<Point2<T>>) -> bool {
    spec_winding_number(pt, s, s.len() as int) != 0
}

/// Returns true iff `pt` is inside the planar polygon `poly`
/// (winding-number test). Assumes `poly` is closed (first != last) and simple
/// (non-self-intersecting). Points exactly on an edge or vertex follow the
/// half-open crossing rule and may classify either way.
///
/// The length bound keeps the winding counter within a machine word.
pub fn point_in_polygon<T: Float>(pt: Point2<T>, poly: &[Point2<T>]) -> (r: bool)
    requires
        poly@.len() <= 0x7fff_ffff,
    ensures
        r == spec_point_in_polygon(pt, poly@),
{
    let mut winding: i32 = 0;
    let n = poly.len();
    let mut i: usize = 0;
    while i < n
        invariant
            n == poly@.len(),
            n <= 0x7fff_ffff,
            i <= n,
            -(i as int) <= winding as int <= i as int,
            winding as int == spec_winding_number(pt, poly@, i as int),
        decreases n - i,
    {
        let j = if i + 1 < n {
            i + 1
        } else {
            0
        };
        let p1 = poly[i];
        let p2 = poly[j];
        proof {
            assert(j == spec_wrap_index(i as int + 1, n as int));
        }
        if p1.y.le(pt.y) {
            if pt.y.lt(p2.y) && T::zero().lt(is_left(p1, p2, pt)) {
                winding += 1;
            }
        } else {
            if p2.y.le(pt.y) && is_left(p1, p2, pt).lt(T::zero()) {
                winding -= 1;
            }
        }
        i += 1;
    }
    winding != 0
}

proof fn lemma_winding_zero_when_above<T: Float>(pt: Point2<T>, s: Seq<Point2<T>>, k: int)
    requires
        forall|i: int| 0 <= i < s.len() ==> (#[trigger] s[i]).y.lt_spec(pt.y),
        k <= s.len(),
    ensures
        spec_winding_number(pt, s, k) == 0,
    decreases k,
{
    if k > 0 {
        lemma_winding_zero_when_above(pt, s, k - 1);
        let i = k - 1;
        let n = s.len() as int;
        let p1 = s[i];
        let p2 = s[spec_wrap_index(i + 1, n)];
        T::law_lt_le(p1.y, pt.y);
        T::law_lt_not_ge(p2.y, pt.y);
        T::law_lt_le(pt.y, p2.y);
    }
}

proof fn lemma_winding_zero_when_below<T: Float>(pt: Point2<T>, s: Seq<Point2<T>>, k: int)
    requires
        forall|i: int| 0 <= i < s.len() ==> pt.y.lt_spec((#[trigger] s[i]).y),
        k <= s.len(),
    ensures
        spec_winding_number(pt, s, k) == 0,
    decreases k,
{
    if k > 0 {
        lemma_winding_zero_when_below(pt, s, k - 1);
        let i = k - 1;
        let n = s.len() as int;
        let p1 = s[i];
        let p2 = s[spec_wrap_index(i + 1, n)];
        T::law_lt_not_ge(pt.y, p1.y);
        T::law_lt_not_ge(pt.y, p2.y);
    }
}

/// A point strictly above every vertex of the polygon — in particular one far
/// outside its bounding extent — is never classified as inside: no edge can
/// cross its y level, so the winding number stays zero.
pub proof fn lemma_point_above_polygon_is_outside<T: Float>(pt: Point2<T>, s: Seq<Point2<T>>)
    requires
        forall|i: int| 0 <= i < s.len() ==> (#[trigger] s[i]).y.lt_spec(pt.y),
    ensures
        !spec_point_in_polygon(pt, s),
{
    lemma_winding_zero_when_above(pt, s, s.len() as int);
}

/// A point strictly below every vertex of the polygon is never classified as
/// inside: no edge can cross its y level, so the winding number stays zero.
pub proof fn lemma_point_below_polygon_is_outside<T: Float>(pt: Point2<T>, s: Seq<Point2<T>>)
    requires
        forall|i: int| 0 <= i < s.len() ==> pt.y.lt_spec((#[trigger] s[i]).y),
    ensures
        !spec_point_in_polygon(pt, s),
{
    lemma_winding_zero_when_below(pt, s, s.len() as int);
}

} // verus!
