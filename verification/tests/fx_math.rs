//! Tests for the fixed-point scalar model and the vector/point algebra.

use raytracer::fx::{add_fx, sub_fx, neg_fx, mul_fx, div_fx, sqrt_fx, SCALE};
use raytracer::math::{Point3D, Vector3D};

const S: i64 = SCALE;

#[test]
fn fx_add_sub_neg() {
    assert_eq!(add_fx(S, S), 2 * S);
    assert_eq!(sub_fx(3 * S, S), 2 * S);
    assert_eq!(neg_fx(5 * S), -5 * S);
    assert_eq!(add_fx(-S, S), 0);
}

#[test]
fn fx_add_saturates() {
    assert_eq!(add_fx(i64::MAX, i64::MAX), i64::MAX);
    assert_eq!(sub_fx(i64::MIN, 1), i64::MIN);
    assert_eq!(neg_fx(i64::MIN), i64::MAX);
}

#[test]
fn fx_mul_exact_and_truncating() {
    assert_eq!(mul_fx(2 * S, 3 * S), 6 * S);
    assert_eq!(mul_fx(-2 * S, 3 * S), -6 * S);
    // 1/65536 squared truncates to zero
    assert_eq!(mul_fx(1, 1), 0);
    // 0.5 * 0.5 == 0.25
    assert_eq!(mul_fx(S / 2, S / 2), S / 4);
    assert_eq!(mul_fx(i64::MAX, i64::MAX), i64::MAX);
}

#[test]
fn fx_div_truncates_toward_zero() {
    assert_eq!(div_fx(S, 2 * S), S / 2);
    assert_eq!(div_fx(-3 * S, 2 * S), -(3 * S) / 2);
    assert_eq!(div_fx(3 * S, -2 * S), -(3 * S) / 2);
    assert_eq!(div_fx(-3 * S, -2 * S), (3 * S) / 2);
}

#[test]
fn fx_div_by_zero_is_zero() {
    assert_eq!(div_fx(12345, 0), 0);
    assert_eq!(div_fx(0, 0), 0);
    assert_eq!(div_fx(i64::MIN, 0), 0);
}

#[test]
fn fx_sqrt_exact_squares() {
    assert_eq!(sqrt_fx(4 * S), 2 * S);
    assert_eq!(sqrt_fx(S), S);
    assert_eq!(sqrt_fx(25 * S), 5 * S);
    assert_eq!(sqrt_fx(0), 0);
    assert_eq!(sqrt_fx(-5 * S), 0);
}

#[test]
fn fx_sqrt_truncates() {
    // sqrt(2) = 1.41421356...; raw floor(sqrt(2) * 65536) = 92681
    assert_eq!(sqrt_fx(2 * S), 92681);
}

#[test]
fn vector_new_from_components() {
    let v = Vector3D::new(1, 2, 3);
    assert_eq!(v.x, 1);
    assert_eq!(v.y, 2);
    assert_eq!(v.z, 3);
    let w = Vector3D::from(&v);
    assert_eq!(w.x, 1);
    assert_eq!(w.y, 2);
    assert_eq!(w.z, 3);
}

#[test]
fn vector_componentwise_ops() {
    let a = Vector3D::new(S, 2 * S, 3 * S);
    let b = Vector3D::new(4 * S, 5 * S, 6 * S);
    let sum = a.add(b);
    assert_eq!((sum.x, sum.y, sum.z), (5 * S, 7 * S, 9 * S));
    let diff = b.sub(a);
    assert_eq!((diff.x, diff.y, diff.z), (3 * S, 3 * S, 3 * S));
    let prod = a.mul(b);
    assert_eq!((prod.x, prod.y, prod.z), (4 * S, 10 * S, 18 * S));
    let quot = b.div(a);
    assert_eq!((quot.x, quot.y, quot.z), (4 * S, 5 * S / 2, 2 * S));
    let scaled = a.scale(2 * S);
    assert_eq!((scaled.x, scaled.y, scaled.z), (2 * S, 4 * S, 6 * S));
}

#[test]
fn vector_dot_and_length() {
    let a = Vector3D::new(3 * S, 4 * S, 0);
    assert_eq!(a.dot(&a), 25 * S);
    assert_eq!(a.length(), 5 * S);
    let unit = Vector3D::new(0, 0, -S);
    assert_eq!(unit.length(), S);
}

#[test]
fn vector_cross_product() {
    let x = Vector3D::new(S, 0, 0);
    let y = Vector3D::new(0, S, 0);
    let z = x.cross(y);
    assert_eq!((z.x, z.y, z.z), (0, 0, S));
    let back = y.cross(x);
    assert_eq!((back.x, back.y, back.z), (0, 0, -S));
}

#[test]
fn normalize_axis_vectors_exactly_unit() {
    // scenario for the unit-length law on axis-aligned vectors
    let v = Vector3D::new(2 * S, 0, 0);
    let n = v.normalize();
    assert_eq!((n.x, n.y, n.z), (S, 0, 0));
    assert_eq!(n.length(), S);
    let w = Vector3D::new(0, -7 * S, 0);
    let m = w.normalize();
    assert_eq!((m.x, m.y, m.z), (0, -S, 0));
    assert_eq!(m.length(), S);
}

#[test]
fn normalize_general_vector_unit_within_tolerance() {
    // |normalize(v)| == 1 within the fixed-point tolerance
    let v = Vector3D::new(3 * S, 4 * S, 0);
    let n = v.normalize();
    let len = n.length();
    assert!((len - S).abs() <= 4, "length {} too far from {}", len, S);
    let w = Vector3D::new(S, S, S);
    let m = w.normalize();
    let len2 = m.length();
    assert!((len2 - S).abs() <= 4, "length {} too far from {}", len2, S);
}

#[test]
fn normalize_zero_vector_stays_zero() {
    let v = Vector3D::new(0, 0, 0);
    let n = v.normalize();
    assert_eq!((n.x, n.y, n.z), (0, 0, 0));
}

#[test]
fn vector_get_color_saturates_and_truncates() {
    let c = Vector3D::new(255 * S, 0, 128 * S + S / 2);
    assert_eq!(c.get_color(), (255, 0, 128));
    let over = Vector3D::new(300 * S, -5 * S, 256 * S);
    assert_eq!(over.get_color(), (255, 0, 255));
}

#[test]
fn point_ops() {
    let p = Point3D::new(S, 2 * S, 3 * S);
    let q = Point3D::from(&p);
    assert_eq!((q.x, q.y, q.z), (S, 2 * S, 3 * S));
    let moved = p.add(Vector3D::new(S, S, S));
    assert_eq!((moved.x, moved.y, moved.z), (2 * S, 3 * S, 4 * S));
    let d = moved.sub(p);
    assert_eq!((d.x, d.y, d.z), (S, S, S));
    assert_eq!(p, Point3D::new(S, 2 * S, 3 * S));
    assert_ne!(p, moved);
}

#[test]
fn point_componentwise_mul_div() {
    let p = Point3D::new(2 * S, 3 * S, 4 * S);
    let q = Point3D::new(S, 2 * S, 4 * S);
    let prod = p.mul(q);
    assert_eq!((prod.x, prod.y, prod.z), (2 * S, 6 * S, 16 * S));
    let quot = p.div(q);
    assert_eq!((quot.x, quot.y, quot.z), (2 * S, 3 * S / 2, S));
    let by_zero = p.div(Point3D::new(0, 0, 0));
    assert_eq!((by_zero.x, by_zero.y, by_zero.z), (0, 0, 0));
}

#[test]
fn defaults_are_zero() {
    let v: Vector3D = Default::default();
    assert_eq!((v.x, v.y, v.z), (0, 0, 0));
    let p: Point3D = Default::default();
    assert_eq!((p.x, p.y, p.z), (0, 0, 0));
}
