//! Face normals and projected area for planar polygons.

use vstd::prelude::*;

use crate::float::Float;
use crate::point::Point3;
use crate::spec_wrap_index;
use crate::vec::Vec3;

verus! {

/// Left fold of the first `k` Newell terms: term `i` is the cross product of
/// the edge leaving vertex `i` with the chord from vertex `i` to vertex
/// `i + 2` (indices cyclic).
pub open spec fn spec_newell_sum<T: Float>(s: Seq<Point3<T>>, k: int) -> Vec3<T>
    decreases k,
{
    if k <= 0 {
        Vec3 { x: T::zero_spec(), y: T::zero_spec(), z: T::zero_spec() }
    } else {
        let i = k - 1;
        let n = s.len() as int;
        let a = s[i];
        let b = s[spec_wrap_index(i + 1, n)];
        let c = s[spec_wrap_index(i + 2, n)];
        spec_newell_sum(s, i).add_spec(b.sub_spec(a).cross_spec(c.sub_spec(a)))
    }
}

/// For exactly 3 vertices, the cross product of the two edges at the first
/// vertex; for more, the Newell accumulation over all vertices; for fewer,
/// the zero vector.
pub open spec fn spec_face_normal<T: Float>(s: Seq<Point3<T>>) -> Vec3<T> {
    if s.len() == 3 {
        s[1].sub_spec(s[0]).cross_spec(s[2].sub_spec(s[0]))
    } else if s.len() > 3 {
        spec_newell_sum(s, s.len() as int)
    } else {
        Vec3 { x: T::zero_spec(), y: T::zero_spec(), z: T::zero_spec() }
    }
}

/// Compute the un-normalized face normal for planar polygon verts in order.
/// For triangles, returns the cross product of two edges. For n > 3, returns
/// the sum of cross(edge[i], chord[i]) around the polygon. For fewer than 3
/// vertices, returns the zero vector (never an error): a deliberate
/// degenerate-input policy.
pub fn face_normal<T: Float>(verts: &[Point3<T>]) -> (r: Vec3<T>)
    ensures
        r == spec_face_normal(verts@),
{
    let n = verts.len();
    if n == 3 {
        let ab = verts[1].sub(verts[0]);
        let ac = verts[2].sub(verts[0]);
        ab.cross(ac)
    } else if n > 3 {
        let mut nrm = Vec3::new(T::zero(), T::zero(), T::zero());
        let mut i: usize = 0;
        while i < n
            invariant
                n == verts@.len(),
                n > 3,
                i <= n,
                nrm == spec_newell_sum(verts@, i as int),
            decreases n - i,
        {
            let j = if i + 1 < n {
                i + 1
            } else {
                0
            };
            let k = if j + 1 < n {
                j + 1
            } else {
                0
            };
            let a = verts[i];
            let b = verts[j];
            let c = verts[k];
            proof {
                assert(j == spec_wrap_index(i as int + 1, n as int));
                assert(k == spec_wrap_index(i as int + 2, n as int));
            }
            nrm = nrm.add(b.sub(a).cross(c.sub(a)));
            i += 1;
        }
        nrm
    } else {
        Vec3::new(T::zero(), T::zero(), T::zero())
    }
}

/// Half the magnitude of the accumulated face normal.
pub open spec fn spec_projected_area<T: Float>(s: Seq<Point3<T>>) -> T {
    spec_face_normal(s).magnitude_spec().mul_spec(T::half_spec())
}

/// Projected (planar) area = half the magnitude of the face normal.
pub fn projected_area<T: Float>(verts: &[Point3<T>]) -> (r: T)
    ensures
        r == spec_projected_area(verts@),
{
    face_normal(verts).magnitude().mul(T::half())
}

} // verus!
