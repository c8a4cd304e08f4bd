//! Tests for the primitives' intersection rules and the light sources.

use raytracer::fx::{SCALE, FX_HALF};
use raytracer::math::{Point3D, Vector3D};
use raytracer::object::{Axis, Cylinder, Object, Plane, Sphere, HitResult};
use raytracer::light::{AmbientLight, DirectionalLight, Light, PointLight};
use raytracer::raytracer::Ray;

const S: i64 = SCALE;

fn red() -> Vector3D {
    Vector3D::new(255 * S, 0, 0)
}

#[test]
fn sphere_front_face_hit() {
    // a unit sphere at the origin, probed from (0,0,5) toward (0,0,-1),
    // is struck at t = 5 - r = 4: hit point (0,0,1), normal (0,0,1)
    let sphere = Sphere::new(Point3D::new(0, 0, 0), S, red());
    let ray = Ray::new(Point3D::new(0, 0, 5 * S), Vector3D::new(0, 0, -S));
    let hit = sphere.hits(ray).expect("front face must be struck");
    assert_eq!((hit.x, hit.y, hit.z), (0, 0, S));
    let normal = sphere.surface_normal(&hit);
    assert_eq!((normal.x, normal.y, normal.z), (0, 0, S));
}

#[test]
fn sphere_radius_scales_hit_depth() {
    // radius 2: struck at t = 3, hit point (0,0,2)
    let sphere = Sphere::new(Point3D::new(0, 0, 0), 2 * S, red());
    let ray = Ray::new(Point3D::new(0, 0, 5 * S), Vector3D::new(0, 0, -S));
    let hit = sphere.hits(ray).expect("front face must be struck");
    assert_eq!((hit.x, hit.y, hit.z), (0, 0, 2 * S));
}

#[test]
fn sphere_missed_by_offset_ray() {
    let sphere = Sphere::new(Point3D::new(0, 0, 0), S, red());
    let ray = Ray::new(Point3D::new(5 * S, 0, 5 * S), Vector3D::new(0, 0, -S));
    assert!(sphere.hits(ray).is_none());
}

#[test]
fn sphere_behind_ray_is_no_hit() {
    // both roots negative: the sphere sits behind the ray
    let sphere = Sphere::new(Point3D::new(0, 0, 10 * S), S, red());
    let ray = Ray::new(Point3D::new(0, 0, 5 * S), Vector3D::new(0, 0, -S));
    assert!(sphere.hits(ray).is_none());
}

#[test]
fn sphere_inside_falls_back_to_far_root() {
    // ray origin inside the sphere: the near root is negative, the far
    // root is taken
    let sphere = Sphere::new(Point3D::new(0, 0, 0), S, red());
    let ray = Ray::new(Point3D::new(0, 0, 0), Vector3D::new(0, 0, -S));
    let hit = sphere.hits(ray).expect("far root must be taken");
    assert_eq!((hit.x, hit.y, hit.z), (0, 0, -S));
}

#[test]
fn sphere_albedo_factor() {
    let sphere = Sphere::new(Point3D::new(0, 0, 0), S, red());
    let albedo = sphere.get_albedo(&Point3D::new(0, 0, S), &Vector3D::new(0, 0, 2 * S));
    // 4*pi*r^2/|light| = 4*pi/2; 4*pi is 823549 raw, halved and truncated
    // to 411774, then applied to the 255.0 red channel
    assert_eq!((albedo.x, albedo.y, albedo.z), (255 * 411774, 0, 0));
}

#[test]
fn plane_new_derives_origin_and_normal() {
    let px = Plane::new(Axis::X, 3, red());
    assert_eq!((px.origin.x, px.origin.y, px.origin.z), (3 * S, 0, 0));
    assert_eq!((px.normal.x, px.normal.y, px.normal.z), (0, 0, S));
    let py = Plane::new(Axis::Y, -2, red());
    assert_eq!((py.origin.x, py.origin.y, py.origin.z), (0, -2 * S, 0));
    assert_eq!((py.normal.x, py.normal.y, py.normal.z), (-S, 0, 0));
    let pz = Plane::new(Axis::Z, 7, red());
    assert_eq!((pz.origin.x, pz.origin.y, pz.origin.z), (0, 0, 7 * S));
    assert_eq!((pz.normal.x, pz.normal.y, pz.normal.z), (0, -S, 0));
}

#[test]
fn plane_forward_crossing_reports_hit() {
    let plane = Plane::new(Axis::Z, -2, red());
    let ray = Ray::new(Point3D::new(0, 0, 0), Vector3D::new(0, 0, -S));
    let hit = plane.hits(ray).expect("forward crossing must be struck");
    assert_eq!((hit.x, hit.y, hit.z), (0, 0, -2 * S));
}

#[test]
fn plane_parallel_ray_never_hits() {
    // a ray parallel to the plane reports no hit, for any offset
    for position in [-7, -1, 0, 1, 5, 1000] {
        let plane = Plane::new(Axis::Z, position, red());
        let ray = Ray::new(Point3D::new(0, 0, 0), Vector3D::new(S, 0, 0));
        assert!(plane.hits(ray).is_none(), "offset {} must not be hit", position);
        let diagonal = Ray::new(Point3D::new(S, S, S), Vector3D::new(S, -S, 0));
        assert!(plane.hits(diagonal).is_none());
    }
}

#[test]
fn plane_behind_ray_is_no_hit() {
    let plane = Plane::new(Axis::Z, 5, red());
    let ray = Ray::new(Point3D::new(0, 0, 0), Vector3D::new(0, 0, -S));
    assert!(plane.hits(ray).is_none());
}

#[test]
fn plane_unknown_axis_never_hits() {
    let plane = Plane::new(Axis::Other, 0, red());
    let ray = Ray::new(Point3D::new(0, 0, 5 * S), Vector3D::new(0, 0, -S));
    assert!(plane.hits(ray).is_none());
}

#[test]
fn plane_shading_normal_is_negated() {
    let plane = Plane::new(Axis::Z, 0, red());
    let n = plane.surface_normal(&Point3D::new(0, 0, 0));
    assert_eq!((n.x, n.y, n.z), (0, S, 0));
}

#[test]
fn plane_rotate_turns_stored_normal() {
    let mut plane = Plane::new(Axis::Z, 0, red());
    // rotate a quarter turn around Z: cos 0, sin 1
    plane.rotate(Axis::Z, 0, S);
    assert_eq!((plane.normal.x, plane.normal.y, plane.normal.z), (S, 0, 0));
    assert_eq!(plane.axis, Axis::Z);
    assert_eq!(plane.position, 0);
}

#[test]
fn plane_rotate_around_x_and_y() {
    // around X: (0,-1,0) by a quarter turn goes to (0,0,-1)
    let mut p = Plane::new(Axis::Z, 0, red());
    p.rotate(Axis::X, 0, S);
    assert_eq!((p.normal.x, p.normal.y, p.normal.z), (0, 0, -S));
    // around Y: (0,0,1) by a quarter turn goes to (1,0,0)
    let mut q = Plane::new(Axis::X, 0, red());
    q.rotate(Axis::Y, 0, S);
    assert_eq!((q.normal.x, q.normal.y, q.normal.z), (S, 0, 0));
}

#[test]
fn cylinder_hit_ignores_y() {
    let cyl = Cylinder::new(Point3D::new(0, 0, 0), S, Axis::Y, red());
    let ray = Ray::new(Point3D::new(0, 9 * S, 5 * S), Vector3D::new(0, 0, -S));
    let hit = cyl.hits(ray).expect("cylinder must be struck");
    assert_eq!((hit.x, hit.y, hit.z), (0, 9 * S, S));
}

#[test]
fn cylinder_reports_hit_behind_ray() {
    // any non-negative discriminant reports a hit, even behind the origin
    let cyl = Cylinder::new(Point3D::new(0, 0, 0), S, Axis::Y, red());
    let ray = Ray::new(Point3D::new(0, 0, 5 * S), Vector3D::new(0, 0, S));
    let hit = cyl.hits(ray).expect("the quadratic still reports");
    assert_eq!((hit.x, hit.y, hit.z), (0, 0, S));
}

#[test]
fn cylinder_miss() {
    let cyl = Cylinder::new(Point3D::new(0, 0, 0), S, Axis::Y, red());
    let ray = Ray::new(Point3D::new(5 * S, 0, 5 * S), Vector3D::new(0, 0, -S));
    assert!(cyl.hits(ray).is_none());
}

#[test]
fn cylinder_normal_flips_above_cap() {
    let cyl = Cylinder::new(Point3D::new(0, 0, 0), S, Axis::Y, red());
    let low = cyl.surface_normal(&Point3D::new(0, 0, S));
    assert_eq!((low.x, low.y, low.z), (0, 0, S));
    let high = cyl.surface_normal(&Point3D::new(0, 2 * S, S));
    assert_eq!((high.x, high.y, high.z), (0, 0, -S));
}

#[test]
fn cylinder_center_is_half_unit_up() {
    let cyl = Cylinder::new(Point3D::new(S, 0, 0), S, Axis::Y, red());
    let c = cyl.get_center();
    assert_eq!((c.x, c.y, c.z), (S, FX_HALF, 0));
}

#[test]
fn object_enum_dispatches() {
    let sphere = Object::Sphere(Sphere::new(Point3D::new(0, 0, 0), S, red()));
    let ray = Ray::new(Point3D::new(0, 0, 5 * S), Vector3D::new(0, 0, -S));
    let hit = sphere.hits(ray).expect("sphere through the enum");
    assert_eq!((hit.x, hit.y, hit.z), (0, 0, S));
    let c = sphere.get_color();
    assert_eq!((c.x, c.y, c.z), (255 * S, 0, 0));
    let center = sphere.get_center();
    assert_eq!((center.x, center.y, center.z), (0, 0, 0));
}

#[test]
fn hit_result_variants_differ() {
    assert_eq!(HitResult::Hit, HitResult::Hit);
    assert_ne!(HitResult::Hit, HitResult::Missed);
}

#[test]
fn directional_light_hands_back_its_fields() {
    let l = DirectionalLight::new(Vector3D::new(0, 0, S), red(), S / 2);
    let d = l.get_direction();
    assert_eq!((d.x, d.y, d.z), (0, 0, S));
    let c = l.get_color();
    assert_eq!((c.x, c.y, c.z), (255 * S, 0, 0));
    assert_eq!(l.get_intensity(), S / 2);
}

#[test]
fn point_light_direction_is_from_world_origin() {
    // the direction is measured from the world origin, not the hit point
    let l = PointLight::new(Point3D::new(0, 0, 5 * S), red(), S);
    let d = l.get_direction();
    assert_eq!((d.x, d.y, d.z), (0, 0, S));
}

#[test]
fn ambient_light_has_fixed_direction() {
    let l = AmbientLight::new(red(), S);
    let d = l.get_direction();
    assert_eq!((d.x, d.y, d.z), (0, 0, S));
    assert_eq!(l.get_intensity(), S);
}

#[test]
fn light_enum_dispatches() {
    let l = Light::Point(PointLight::new(Point3D::new(0, 0, 5 * S), red(), 3 * S));
    let d = l.get_direction();
    assert_eq!((d.x, d.y, d.z), (0, 0, S));
    assert_eq!(l.get_intensity(), 3 * S);
    let c = l.get_color();
    assert_eq!((c.x, c.y, c.z), (255 * S, 0, 0));
}

#[test]
fn default_light_and_shapes() {
    let l: DirectionalLight = Default::default();
    assert_eq!(l.get_intensity(), S);
    let sphere: Sphere = Default::default();
    assert_eq!(sphere.radius, 0);
    let plane: Plane = Default::default();
    assert_eq!(plane.axis, Axis::Z);
    assert_eq!(plane.position, 0);
}
