//! End-to-end tests of the geometry kernel over an IEEE double-precision
//! scalar. The kernel is generic over its `Float` trait; `F64` plugs in
//! `f64` (a local newtype, as the orphan rule requires).

use mesh_geometry::{
    face_normal, hexahedron_centroid, hexahedron_volume, invert_quad_mapping, point_in_polygon,
    point_to_polygon_distance, point_to_segment_distance, point_to_triangle_distance,
    polygon_area, polygon_centroid, prism_centroid, prism_volume, projected_area, quad_area,
    quad_centroid, ray_intersects_triangle, tetrahedron_centroid, tetrahedron_volume,
    triangle_area, triangle_centroid, Aabb, Float, Jacobian2x2, Point2, Point3, Ray, Transform3,
    Vec2, Vec3,
};

#[derive(Clone, Copy, Debug, PartialEq)]
struct F64(f64);

impl Float for F64 {
    fn add_spec(self, other: F64) -> F64 {
        F64(self.0 + other.0)
    }
    fn sub_spec(self, other: F64) -> F64 {
        F64(self.0 - other.0)
    }
    fn mul_spec(self, other: F64) -> F64 {
        F64(self.0 * other.0)
    }
    fn div_spec(self, other: F64) -> F64 {
        F64(self.0 / other.0)
    }
    fn neg_spec(self) -> F64 {
        F64(-self.0)
    }
    fn abs_spec(self) -> F64 {
        F64(self.0.abs())
    }
    fn sqrt_spec(self) -> F64 {
        F64(self.0.sqrt())
    }
    fn recip_spec(self) -> F64 {
        F64(self.0.recip())
    }
    fn min_spec(self, other: F64) -> F64 {
        F64(self.0.min(other.0))
    }
    fn max_spec(self, other: F64) -> F64 {
        F64(self.0.max(other.0))
    }
    fn lt_spec(self, other: F64) -> bool {
        self.0 < other.0
    }
    fn le_spec(self, other: F64) -> bool {
        self.0 <= other.0
    }
    fn is_zero_spec(self) -> bool {
        self.0 == 0.0
    }
    fn zero_spec() -> F64 {
        F64(0.0)
    }
    fn one_spec() -> F64 {
        F64(1.0)
    }
    fn half_spec() -> F64 {
        F64(0.5)
    }
    fn epsilon_spec() -> F64 {
        F64(f64::EPSILON)
    }
    fn infinity_spec() -> F64 {
        F64(f64::INFINITY)
    }
    fn neg_infinity_spec() -> F64 {
        F64(f64::NEG_INFINITY)
    }
    fn from_u32_spec(n: u32) -> F64 {
        F64(n as f64)
    }
    fn law_mul_comm(_a: F64, _b: F64) {
    }
    fn law_sq_sub_swap(_a: F64, _b: F64) {
    }
    fn law_lt_le(_a: F64, _b: F64) {
    }
    fn law_lt_not_ge(_a: F64, _b: F64) {
    }
    fn add(self, other: F64) -> F64 {
        F64(self.0 + other.0)
    }
    fn sub(self, other: F64) -> F64 {
        F64(self.0 - other.0)
    }
    fn mul(self, other: F64) -> F64 {
        F64(self.0 * other.0)
    }
    fn div(self, other: F64) -> F64 {
        F64(self.0 / other.0)
    }
    fn neg(self) -> F64 {
        F64(-self.0)
    }
    fn abs(self) -> F64 {
        F64(self.0.abs())
    }
    fn sqrt(self) -> F64 {
        F64(self.0.sqrt())
    }
    fn recip(self) -> F64 {
        F64(self.0.recip())
    }
    fn min(self, other: F64) -> F64 {
        F64(self.0.min(other.0))
    }
    fn max(self, other: F64) -> F64 {
        F64(self.0.max(other.0))
    }
    fn lt(self, other: F64) -> bool {
        self.0 < other.0
    }
    fn le(self, other: F64) -> bool {
        self.0 <= other.0
    }
    fn is_zero(self) -> bool {
        self.0 == 0.0
    }
    fn zero() -> F64 {
        F64(0.0)
    }
    fn one() -> F64 {
        F64(1.0)
    }
    fn half() -> F64 {
        F64(0.5)
    }
    fn epsilon() -> F64 {
        F64(f64::EPSILON)
    }
    fn infinity() -> F64 {
        F64(f64::INFINITY)
    }
    fn neg_infinity() -> F64 {
        F64(f64::NEG_INFINITY)
    }
    fn from_u32(n: u32) -> F64 {
        F64(n as f64)
    }
}

fn f(x: f64) -> F64 {
    F64(x)
}

fn p2(x: f64, y: f64) -> Point2<F64> {
    Point2::new(F64(x), F64(y))
}

fn p3(x: f64, y: f64, z: f64) -> Point3<F64> {
    Point3::new(F64(x), F64(y), F64(z))
}

fn v2(x: f64, y: f64) -> Vec2<F64> {
    Vec2::new(F64(x), F64(y))
}

fn v3(x: f64, y: f64, z: f64) -> Vec3<F64> {
    Vec3::new(F64(x), F64(y), F64(z))
}

#[test]
fn triangle_area_unit() {
    let a = p3(0.0, 0.0, 0.0);
    let b = p3(1.0, 0.0, 0.0);
    let c = p3(0.0, 1.0, 0.0);
    let area = triangle_area(a, b, c);
    assert!((area.0 - 0.5).abs() < 1e-8);
}

#[test]
fn quad_area_square() {
    let a = p3(0.0, 0.0, 0.0);
    let b = p3(1.0, 0.0, 0.0);
    let c = p3(1.0, 1.0, 0.0);
    let d = p3(0.0, 1.0, 0.0);
    let area = quad_area(a, b, c, d);
    assert!((area.0 - 1.0).abs() < 1e-8);
}

#[test]
fn triangle_centroid_correct() {
    let a = p3(0.0, 0.0, 0.0);
    let b = p3(1.0, 0.0, 0.0);
    let c = p3(0.0, 1.0, 0.0);
    let cen = triangle_centroid(a, b, c);
    assert_eq!(cen, p3(1.0 / 3.0, 1.0 / 3.0, 0.0));
}

#[test]
fn projected_area_triangle() {
    let tri = [p3(0.0, 0.0, 0.0), p3(1.0, 0.0, 0.0), p3(0.0, 1.0, 0.0)];
    let area = projected_area(&tri);
    if (area.0 - 0.5).abs() >= 1e-8 {
        println!("projected_area_triangle: got {} (expected 0.5)", area.0);
    }
    assert!((area.0 - 0.5).abs() < 1e-8);
}

#[test]
fn triangular_prism_unit_height() {
    // base = right triangle area=0.5
    let base = [p2(0.0, 0.0), p2(1.0, 0.0), p2(0.0, 1.0)];
    let vol = prism_volume::<F64>(&base, f(2.0));
    assert!((vol.0 - 1.0_f64).abs() < 1e-8);
    let cen = prism_centroid::<F64>(&base, f(2.0), f(0.0));
    // base centroid at (1/3,1/3), z=1.0
    assert!((cen.x.0 - 1.0_f64 / 3.0_f64).abs() < 1e-8);
    assert!((cen.z.0 - 1.0_f64).abs() < 1e-8);
}

#[test]
fn hexagonal_prism() {
    // regular hexagon radius=1
    let hex: Vec<_> = (0..6)
        .map(|i| {
            let theta = (i as f64) * std::f64::consts::PI / 3.0;
            p2(theta.cos(), theta.sin())
        })
        .collect();
    let h = f(5.0);
    let vol = prism_volume::<F64>(&hex, h);
    // expected = hex_area * h
    let expected_area = 3.0_f64 * 3_f64.sqrt() / 2.0_f64;
    assert!((vol.0 - expected_area * 5.0_f64).abs() < 1e-6);
}

#[test]
fn tet_unit_volume() {
    let a = p3(0.0, 0.0, 0.0);
    let b = p3(1.0, 0.0, 0.0);
    let c = p3(0.0, 1.0, 0.0);
    let d = p3(0.0, 0.0, 1.0);
    let vol = tetrahedron_volume(a, b, c, d);
    assert!((vol.0 - 1.0 / 6.0).abs() < 1e-8);
}

#[test]
fn roundtrip_point3_vector_ops() {
    let p = p3(1.0, 2.0, 3.0);
    let q = p3(4.0, 6.0, 5.0);
    let v = q.sub(p);
    // subtraction gives correct Vec3
    assert_eq!(v, v3(3.0, 4.0, 2.0));
    // adding it back recovers q
    assert_eq!(p.add(v), q);
}

#[test]
fn point2_sub_add_consistency() {
    let p = p2(0.5, 1.5);
    let q = p2(-1.0, 4.0);
    let v = q.sub(p);
    assert_eq!(p.add(v), q);
}

#[test]
fn seg_dist() {
    let a = p2(0.0, 0.0);
    let b = p2(1.0, 0.0);
    let d = point_to_segment_distance(p2(0.5, 1.0), a, b);
    assert!((d.0 - 1.0).abs() < 1e-8);
}

#[test]
fn poly_dist_inside() {
    let square = [p2(-1.0, -1.0), p2(1.0, -1.0), p2(1.0, 1.0), p2(-1.0, 1.0)];
    assert_eq!(point_to_polygon_distance(p2(0.0, 0.0), &square), f(0.0));
}

#[test]
fn poly_dist_outside() {
    let square = [p2(-1.0, -1.0), p2(1.0, -1.0), p2(1.0, 1.0), p2(-1.0, 1.0)];
    let d = point_to_polygon_distance(p2(2.0, 0.0), &square);
    assert!((d.0 - 1.0_f64).abs() < 1e-8);
}

#[test]
fn inside_triangle() {
    let tri = [p2(0.0, 0.0), p2(5.0, 0.0), p2(0.0, 5.0)];
    assert!(point_in_polygon(p2(1.0, 1.0), &tri));
    assert!(!point_in_polygon(p2(5.0, 5.0), &tri));
}

#[test]
fn inside_square_and_hole() {
    let square = [p2(-1.0, -1.0), p2(1.0, -1.0), p2(1.0, 1.0), p2(-1.0, 1.0)];
    assert!(point_in_polygon(p2(0.0, 0.0), &square));
    assert!(!point_in_polygon(p2(2.0, 0.0), &square));
}

#[test]
fn hit_center() {
    let ray = Ray {
        origin: p3(0.1, 0.1, -1.0),
        dir: v3(0.0, 0.0, 1.0),
    };
    let a = p3(0.0, 0.0, 0.0);
    let b = p3(1.0, 0.0, 0.0);
    let c = p3(0.0, 1.0, 0.0);
    let hit = ray_intersects_triangle(ray, a, b, c).unwrap();
    assert!((hit.0.0 - 1.0).abs() < 1e-8);
    // hit.1, hit.2 are barycentric coords; should sum < 1
    assert!(hit.1.0 + hit.2.0 < 1.0);
}

#[test]
fn miss_ray() {
    let ray = Ray {
        origin: p3(2.0, 2.0, -1.0),
        dir: v3(0.0, 0.0, 1.0),
    };
    assert!(
        ray_intersects_triangle(ray, p3(0., 0., 0.), p3(1., 0., 0.), p3(0., 1., 0.)).is_none()
    );
}

#[test]
fn transform_point_vec_roundtrip() {
    let m = [
        [f(2.0), f(0.0), f(0.0)],
        [f(0.0), f(3.0), f(0.0)],
        [f(0.0), f(0.0), f(4.0)],
    ];
    let t = v3(1.0, -1.0, 2.0);
    let tf = Transform3::new(m, t);
    let p = p3(1.0, 1.0, 1.0);
    let pp = tf.transform_point(p);
    assert_eq!(pp, p3(3.0, 2.0, 6.0));
}

#[test]
fn aabb_from_and_contains() {
    let pts = [p3(-1.0, 2.0, 0.0), p3(3.0, -2.0, 5.0)];
    let bb = Aabb::from_points(&pts);
    assert!(bb.contains(p3(0.0, 0.0, 2.5)));
    assert!(!bb.contains(p3(-2.0, 0.0, 0.0)));
}

#[test]
fn aabb_intersect() {
    let b1 = Aabb {
        min: p3(0.0, 0.0, 0.0),
        max: p3(1.0, 1.0, 1.0),
    };
    let b2 = Aabb {
        min: p3(0.5, 0.5, 0.5),
        max: p3(2.0, 2.0, 2.0),
    };
    assert!(b1.intersects(&b2));
    let b3 = Aabb {
        min: p3(2.0, 2.0, 2.0),
        max: p3(3.0, 3.0, 3.0),
    };
    assert!(!b1.intersects(&b3));
}

#[test]
fn jacobian_quad_det_nonzero() {
    let a = p2(0.0, 0.0);
    let b = p2(2.0, 0.0);
    let c = p2(2.0, 1.0);
    let d = p2(0.0, 1.0);
    let j = Jacobian2x2::for_quad(f(0.0), f(0.0), a, b, c, d);
    assert!(!j.det().is_zero());
}

#[test]
fn invert_quad_identity() {
    // unit square maps xi,eta -> x,y one-to-one
    let a = p2(0.0, 0.0);
    let b = p2(1.0, 0.0);
    let c = p2(1.0, 1.0);
    let d = p2(0.0, 1.0);
    let p = p2(0.3, 0.7);
    let got = invert_quad_mapping(f(0.0), f(0.0), p, a, b, c, d, f(1e-6), 50);
    assert!(got.is_some());
    let (xi, eta) = got.unwrap();
    assert!((xi.0 - (-0.4)).abs() < 1e-3);
    assert!((eta.0 - 0.4).abs() < 1e-3);
}

#[test]
fn vec2_dot_and_cross() {
    let u = v2(1.0, 0.0);
    let v = v2(0.0, 1.0);
    assert_eq!(u.dot(v), f(0.0));
    // 2D cross returns +1 for (1,0)x(0,1)
    assert_eq!(u.cross(v), f(1.0));
}

#[test]
fn vec3_dot_and_cross() {
    let i = v3(1.0, 0.0, 0.0);
    let j = v3(0.0, 1.0, 0.0);
    let k = v3(0.0, 0.0, 1.0);
    assert_eq!(i.dot(j), f(0.0));
    assert_eq!(i.cross(j), k);
}

#[test]
fn vec_scaling_and_magnitude() {
    let v = v3(2.0, -3.0, 6.0);
    let scaled = v.mul(f(2.0));
    assert_eq!(scaled, v3(4.0, -6.0, 12.0));
    let len = (4.0_f64 * 4.0 + 6.0 * 6.0 + 12.0 * 12.0).sqrt();
    assert!((scaled.magnitude().0 - len).abs() < 1e-12);
}

#[test]
fn triangle_area_order_swap() {
    // swapping the last two vertices leaves the area unchanged, and the value
    // equals half the cross-product magnitude
    let a = p3(0.2, -1.0, 3.5);
    let b = p3(2.5, 0.75, -0.25);
    let c = p3(-1.0, 4.0, 1.25);
    let area1 = triangle_area(a, b, c);
    let area2 = triangle_area(a, c, b);
    assert_eq!(area1, area2);
    let expected = b.sub(a).cross(c.sub(a)).magnitude().0 * 0.5;
    assert!((area1.0 - expected).abs() < 1e-8);
}

#[test]
fn quad_area_is_sum_of_triangles() {
    let a = p3(0.0, 0.0, 0.0);
    let b = p3(2.0, 0.1, 0.0);
    let c = p3(2.2, 1.9, 0.0);
    let d = p3(-0.1, 2.0, 0.0);
    let q = quad_area(a, b, c, d);
    let t = triangle_area(a, b, c).add(triangle_area(a, c, d));
    assert_eq!(q, t);
}

#[test]
fn far_outside_point_is_outside() {
    let square = [p2(-1.0, -1.0), p2(1.0, -1.0), p2(1.0, 1.0), p2(-1.0, 1.0)];
    assert!(!point_in_polygon(p2(0.5, 1.0e6), &square));
    assert!(!point_in_polygon(p2(0.5, -1.0e6), &square));
    assert!(!point_in_polygon(p2(1.0e6, 0.5), &square));
}

#[test]
fn tet_unit_volume_tight() {
    let a = p3(0.0, 0.0, 0.0);
    let b = p3(1.0, 0.0, 0.0);
    let c = p3(0.0, 1.0, 0.0);
    let d = p3(0.0, 0.0, 1.0);
    let vol = tetrahedron_volume(a, b, c, d);
    assert!((vol.0 - 1.0 / 6.0).abs() < 1e-12);
}

#[test]
fn hexagon_area() {
    let hex: Vec<_> = (0..6)
        .map(|i| {
            let theta = (i as f64) * std::f64::consts::PI / 3.0;
            p2(theta.cos(), theta.sin())
        })
        .collect();
    let area = polygon_area(&hex);
    let expected = 3.0_f64 * 3.0_f64.sqrt() / 2.0;
    assert!((area.0 - expected).abs() < 1e-6);
}

#[test]
fn polygon_centroid_square() {
    let square = [p2(0.0, 0.0), p2(1.0, 0.0), p2(1.0, 1.0), p2(0.0, 1.0)];
    let cen = polygon_centroid(&square);
    assert!((cen.x.0 - 0.5).abs() < 1e-12);
    assert!((cen.y.0 - 0.5).abs() < 1e-12);
}

#[test]
fn quad_centroid_square() {
    let a = p3(0.0, 0.0, 0.0);
    let b = p3(1.0, 0.0, 0.0);
    let c = p3(1.0, 1.0, 0.0);
    let d = p3(0.0, 1.0, 0.0);
    let cen = quad_centroid(a, b, c, d);
    assert!((cen.x.0 - 0.5).abs() < 1e-12);
    assert!((cen.y.0 - 0.5).abs() < 1e-12);
    assert!(cen.z.0.abs() < 1e-12);
}

#[test]
fn tetrahedron_centroid_average() {
    let a = p3(0.0, 0.0, 0.0);
    let b = p3(1.0, 0.0, 0.0);
    let c = p3(0.0, 1.0, 0.0);
    let d = p3(0.0, 0.0, 1.0);
    let cen = tetrahedron_centroid(a, b, c, d);
    assert_eq!(cen, p3(0.25, 0.25, 0.25));
}

#[test]
fn hexahedron_unit_cube() {
    let verts = [
        p3(0.0, 0.0, 0.0),
        p3(1.0, 0.0, 0.0),
        p3(1.0, 1.0, 0.0),
        p3(0.0, 1.0, 0.0),
        p3(0.0, 0.0, 1.0),
        p3(1.0, 0.0, 1.0),
        p3(1.0, 1.0, 1.0),
        p3(0.0, 1.0, 1.0),
    ];
    let vol = hexahedron_volume(verts);
    assert!((vol.0 - 1.0).abs() < 1e-12);
    let cen = hexahedron_centroid(verts);
    assert_eq!(cen, p3(0.5, 0.5, 0.5));
}

#[test]
fn face_normal_degenerate_returns_zero() {
    let two = [p3(0.0, 0.0, 0.0), p3(1.0, 0.0, 0.0)];
    let n = face_normal(&two);
    assert_eq!(n, v3(0.0, 0.0, 0.0));
}

#[test]
fn face_normal_square_accumulation() {
    // for n > 3 every edge pair contributes its own cross product, so the
    // unit square accumulates (0,0,4)
    let square = [
        p3(0.0, 0.0, 0.0),
        p3(1.0, 0.0, 0.0),
        p3(1.0, 1.0, 0.0),
        p3(0.0, 1.0, 0.0),
    ];
    let n = face_normal(&square);
    assert_eq!(n, v3(0.0, 0.0, 4.0));
    assert!((projected_area(&square).0 - 2.0).abs() < 1e-12);
}

#[test]
fn point_to_triangle_above_plane() {
    let p = p3(0.1, 0.1, 2.0);
    let a = p3(0.0, 0.0, 0.0);
    let b = p3(1.0, 0.0, 0.0);
    let c = p3(0.0, 1.0, 0.0);
    let d = point_to_triangle_distance(p, a, b, c);
    assert!((d.0 - 2.0).abs() < 1e-12);
}

#[test]
fn point_to_triangle_outside_in_plane() {
    let p = p3(2.0, 0.0, 0.0);
    let a = p3(0.0, 0.0, 0.0);
    let b = p3(1.0, 0.0, 0.0);
    let c = p3(0.0, 1.0, 0.0);
    let d = point_to_triangle_distance(p, a, b, c);
    assert!((d.0 - 1.0).abs() < 1e-12);
}

#[test]
fn ray_behind_origin_misses() {
    let ray = Ray {
        origin: p3(0.1, 0.1, 1.0),
        dir: v3(0.0, 0.0, 1.0),
    };
    let a = p3(0.0, 0.0, 0.0);
    let b = p3(1.0, 0.0, 0.0);
    let c = p3(0.0, 1.0, 0.0);
    assert!(ray_intersects_triangle(ray, a, b, c).is_none());
}

#[test]
fn ray_parallel_misses() {
    let ray = Ray {
        origin: p3(0.1, 0.1, -1.0),
        dir: v3(1.0, 0.0, 0.0),
    };
    let a = p3(0.0, 0.0, 0.0);
    let b = p3(1.0, 0.0, 0.0);
    let c = p3(0.0, 1.0, 0.0);
    assert!(ray_intersects_triangle(ray, a, b, c).is_none());
}

#[test]
fn jacobian_singular_inverse_is_none() {
    // all four corners on one line: the element is degenerate
    let a = p2(0.0, 0.0);
    let b = p2(1.0, 0.0);
    let c = p2(2.0, 0.0);
    let d = p2(3.0, 0.0);
    let j = Jacobian2x2::for_quad(f(0.0), f(0.0), a, b, c, d);
    assert!(j.inverse().is_none());
}

#[test]
fn jacobian_for_quad_entries() {
    let a = p2(0.0, 0.0);
    let b = p2(2.0, 0.0);
    let c = p2(2.0, 1.0);
    let d = p2(0.0, 1.0);
    let j = Jacobian2x2::for_quad(f(0.0), f(0.0), a, b, c, d);
    assert_eq!(j.m11, f(4.0));
    assert_eq!(j.m12, f(0.0));
    assert_eq!(j.m21, f(0.0));
    assert_eq!(j.m22, f(2.0));
    assert_eq!(j.det(), f(8.0));
    let inv = j.inverse().unwrap();
    assert_eq!(inv.m11, f(0.25));
    assert_eq!(inv.m22, f(0.5));
}

#[test]
fn invert_quad_exhausts_iterations() {
    let a = p2(0.0, 0.0);
    let b = p2(1.0, 0.0);
    let c = p2(1.0, 1.0);
    let d = p2(0.0, 1.0);
    let p = p2(0.3, 0.7);
    assert!(invert_quad_mapping(f(0.0), f(0.0), p, a, b, c, d, f(1e-6), 0).is_none());
}

#[test]
fn invert_quad_residual_within_tol() {
    // re-evaluate the shape functions at the returned (xi, eta) and confirm
    // the residual against the target point is within tolerance
    let a = p2(0.0, 0.0);
    let b = p2(1.0, 0.0);
    let c = p2(1.0, 1.0);
    let d = p2(0.0, 1.0);
    let p = p2(0.3, 0.7);
    let tol = 1e-6_f64;
    let (xi, eta) = invert_quad_mapping(f(0.0), f(0.0), p, a, b, c, d, f(tol), 50).unwrap();
    let n1 = (1.0 - xi.0) * (1.0 - eta.0) / 4.0;
    let n2 = (1.0 + xi.0) * (1.0 - eta.0) / 4.0;
    let n3 = (1.0 + xi.0) * (1.0 + eta.0) / 4.0;
    let n4 = (1.0 - xi.0) * (1.0 + eta.0) / 4.0;
    let x = a.x.0 * n1 + b.x.0 * n2 + c.x.0 * n3 + d.x.0 * n4;
    let y = a.y.0 * n1 + b.y.0 * n2 + c.y.0 * n3 + d.y.0 * n4;
    assert!((x - p.x.0).abs() < tol);
    assert!((y - p.y.0).abs() < tol);
}

#[test]
fn transform_inverse_roundtrip() {
    let m = [
        [f(2.0), f(0.0), f(0.0)],
        [f(0.0), f(3.0), f(0.0)],
        [f(0.0), f(0.0), f(4.0)],
    ];
    let t = v3(1.0, -1.0, 2.0);
    let tf = Transform3::new(m, t);
    let inv = tf.inverse().unwrap();
    let p = p3(1.0, 1.0, 1.0);
    let back = inv.transform_point(tf.transform_point(p));
    assert!((back.x.0 - 1.0).abs() < 1e-12);
    assert!((back.y.0 - 1.0).abs() < 1e-12);
    assert!((back.z.0 - 1.0).abs() < 1e-12);
    let v = v3(2.0, 4.0, 8.0);
    let vback = inv.transform_vec(tf.transform_vec(v));
    assert!((vback.x.0 - 2.0).abs() < 1e-12);
    assert!((vback.y.0 - 4.0).abs() < 1e-12);
    assert!((vback.z.0 - 8.0).abs() < 1e-12);
}

#[test]
fn transform_singular_inverse_is_none() {
    let m = [
        [f(1.0), f(2.0), f(3.0)],
        [f(2.0), f(4.0), f(6.0)],
        [f(0.0), f(0.0), f(1.0)],
    ];
    let t = v3(0.0, 0.0, 0.0);
    let tf = Transform3::new(m, t);
    assert!(tf.inverse().is_none());
}

#[test]
fn transform_identity_is_neutral() {
    let tf = Transform3::<F64>::identity();
    let p = p3(1.5, -2.5, 3.25);
    assert_eq!(tf.transform_point(p), p);
    let v = v3(-1.0, 0.5, 2.0);
    assert_eq!(tf.transform_vec(v), v);
}

#[test]
fn aabb_empty_and_grow() {
    let mut bb = Aabb::<F64>::empty();
    assert!(!bb.contains(p3(0.0, 0.0, 0.0)));
    bb.grow(p3(1.0, 2.0, 3.0));
    assert_eq!(bb.min, p3(1.0, 2.0, 3.0));
    assert_eq!(bb.max, p3(1.0, 2.0, 3.0));
    bb.grow(p3(-1.0, 0.0, 5.0));
    assert!(bb.contains(p3(0.0, 1.0, 4.0)));
}

#[test]
fn vec_roundtrip_ops() {
    let u = v2(1.25, -2.5);
    let w = v2(0.5, 4.0);
    assert_eq!(u.add(w).sub(w), u);
    let m = v2(3.0, 4.0).magnitude();
    assert!((m.0 - 5.0).abs() < 1e-12);
}
