//! Tests for the camera, the shading pipeline, and the full render loop.

use raytracer::fx::{mul_fx, SCALE, FX_HALF};
use raytracer::math::{Point3D, Vector3D};
use raytracer::object::{Axis, Object, Plane, Sphere};
use raytracer::light::{DirectionalLight, Light, PointLight};
use raytracer::raytracer::{Camera, Ray, Rectangle3D, Scene};
use raytracer::filter::{apply_anti_aliasing, average_rgb_pixels};

const S: i64 = SCALE;

fn red() -> Vector3D {
    Vector3D::new(255 * S, 0, 0)
}

fn blue() -> Vector3D {
    Vector3D::new(0, 0, 255 * S)
}

fn white() -> Vector3D {
    Vector3D::new(255 * S, 255 * S, 255 * S)
}

#[test]
fn ray_new_and_from() {
    let r = Ray::new(Point3D::new(S, 0, 0), Vector3D::new(0, 0, -S));
    assert_eq!((r.origin.x, r.direction.z), (S, -S));
    let copy = Ray::from(r);
    assert_eq!((copy.origin.x, copy.direction.z), (S, -S));
}

#[test]
fn rectangle_point_at_interpolates() {
    let rect = Rectangle3D::new(
        Point3D::new(-S, -S, -S),
        Vector3D::new(2 * S, 0, 0),
        Vector3D::new(0, 2 * S, 0),
    );
    let center = rect.point_at(S / 2, S / 2);
    assert_eq!((center.x, center.y, center.z), (0, 0, -S));
    let corner = rect.point_at(0, 0);
    assert_eq!((corner.x, corner.y, corner.z), (-S, -S, -S));
    let far = rect.point_at(S, S);
    assert_eq!((far.x, far.y, far.z), (S, S, -S));
}

#[test]
fn camera_screen_for_90_degree_fov() {
    let cam = Camera::new(Point3D::new(0, 0, 0), 90 * S, S);
    assert_eq!(
        (cam.screen.origin.x, cam.screen.origin.y, cam.screen.origin.z),
        (-S, -S, -S)
    );
    assert_eq!(
        (cam.screen.bottom_side.x, cam.screen.bottom_side.y, cam.screen.bottom_side.z),
        (2 * S, 0, 0)
    );
    assert_eq!(
        (cam.screen.left_side.x, cam.screen.left_side.y, cam.screen.left_side.z),
        (0, 2 * S, 0)
    );
}

#[test]
fn camera_screen_uses_tangent_table() {
    // tan(30 degrees) is 37837 raw; the bottom edge spans twice the
    // half width
    let screen = Camera::calculate_screen(Point3D::new(0, 0, 0), 60 * S, S);
    assert_eq!(screen.bottom_side.x, 75674);
}

#[test]
fn camera_screen_interpolates_between_table_entries() {
    // fov 91: half angle 45.5 degrees, halfway between the 45 and 46
    // degree entries; the left edge spans twice the half height
    let screen = Camera::calculate_screen(Point3D::new(0, 0, 0), 91 * S, S);
    assert_eq!(screen.left_side.y, 133400);
}

#[test]
fn camera_screen_clamps_wide_fov() {
    // from a half angle of 89 degrees up the table is flat
    let a = Camera::calculate_screen(Point3D::new(0, 0, 0), 178 * S, S);
    let b = Camera::calculate_screen(Point3D::new(0, 0, 0), 200 * S, S);
    assert_eq!(a.left_side.y, b.left_side.y);
    assert_eq!(a.bottom_side.x, b.bottom_side.x);
    // a negative field of view degenerates to a zero-extent screen
    let c = Camera::calculate_screen(Point3D::new(0, 0, 0), -10 * S, S);
    assert_eq!((c.bottom_side.x, c.bottom_side.y, c.bottom_side.z), (0, 0, 0));
}

#[test]
fn camera_center_ray_looks_down_z() {
    let cam = Camera::new(Point3D::new(0, 0, 0), 90 * S, S);
    let r = cam.ray(S / 2, S / 2);
    assert_eq!((r.origin.x, r.origin.y, r.origin.z), (0, 0, 0));
    assert_eq!((r.direction.x, r.direction.y, r.direction.z), (0, 0, -S));
}

#[test]
fn camera_ray_is_deterministic() {
    let cam = Camera::new(Point3D::new(0, 0, 0), 90 * S, S);
    let a = cam.ray(S / 4, (3 * S) / 4);
    let b = cam.ray(S / 4, (3 * S) / 4);
    assert_eq!((a.origin, a.direction), (b.origin, b.direction));
}

#[test]
fn find_greater_z_selects_depth() {
    // hit points at Z = 2 and Z = 5: the Z = 5 hit is selected
    let scene: Scene = Default::default();
    let pts = vec![Point3D::new(0, 0, 2 * S), Point3D::new(0, 0, 5 * S)];
    assert_eq!(scene.find_greater_z(&pts), 1);
}

#[test]
fn find_greater_z_takes_first_of_ties() {
    let scene: Scene = Default::default();
    let pts = vec![
        Point3D::new(0, 0, 5 * S),
        Point3D::new(0, 0, 5 * S),
        Point3D::new(0, 0, 2 * S),
    ];
    assert_eq!(scene.find_greater_z(&pts), 0);
    let single = vec![Point3D::new(0, 0, -S)];
    assert_eq!(scene.find_greater_z(&single), 0);
}

#[test]
fn lighting_full_strength_when_clear() {
    let shaded = Object::Sphere(Sphere::new(Point3D::new(0, 0, 0), S, red()));
    let light = Light::Point(PointLight::new(Point3D::new(0, 0, 5 * S), white(), S));
    let hit = Point3D::new(0, 0, S);
    let ray = Ray::new(Point3D::new(0, 0, 5 * S), Vector3D::new(0, 0, -S));
    // the only primitive is the shaded one itself: no occluder
    let objects = vec![shaded];
    let c = Scene::compute_lighting_directional(&shaded, &light, &hit, &ray, &objects);
    assert_eq!((c.x, c.y, c.z), (255 * S, 0, 0));
}

#[test]
fn lighting_halved_behind_occluder() {
    // a point light directly behind an opaque occluder halves the lit
    // colour relative to the unoccluded case, for identical base inputs
    let shaded = Object::Sphere(Sphere::new(Point3D::new(0, 0, 0), S, red()));
    let occluder = Object::Sphere(Sphere::new(Point3D::new(0, 0, 3 * S), S, blue()));
    let light = Light::Point(PointLight::new(Point3D::new(0, 0, 5 * S), white(), S));
    let hit = Point3D::new(0, 0, S);
    let ray = Ray::new(Point3D::new(0, 0, 5 * S), Vector3D::new(0, 0, -S));

    let clear = vec![shaded];
    let lit = Scene::compute_lighting_directional(&shaded, &light, &hit, &ray, &clear);

    let blocked = vec![shaded, occluder];
    let shadowed = Scene::compute_lighting_directional(&shaded, &light, &hit, &ray, &blocked);

    assert_eq!(shadowed.x, mul_fx(lit.x, FX_HALF));
    assert_eq!(shadowed.y, mul_fx(lit.y, FX_HALF));
    assert_eq!(shadowed.z, mul_fx(lit.z, FX_HALF));
    assert_eq!((shadowed.x, shadowed.y, shadowed.z), (255 * S / 2, 0, 0));
}

#[test]
fn lighting_ignores_occluder_sharing_a_center() {
    // two primitives sharing a center are indistinguishable to the test
    let shaded = Object::Sphere(Sphere::new(Point3D::new(0, 0, 0), S, red()));
    let twin = Object::Sphere(Sphere::new(Point3D::new(0, 0, 0), 4 * S, blue()));
    let light = Light::Point(PointLight::new(Point3D::new(0, 0, 5 * S), white(), S));
    let hit = Point3D::new(0, 0, S);
    let ray = Ray::new(Point3D::new(0, 0, 5 * S), Vector3D::new(0, 0, -S));
    let objects = vec![shaded, twin];
    let c = Scene::compute_lighting_directional(&shaded, &light, &hit, &ray, &objects);
    assert_eq!((c.x, c.y, c.z), (255 * S, 0, 0));
}

fn one_sphere_scene() -> Scene {
    // one sphere at (0,0,-1) of radius 0.3, pure red, and one directional
    // light pointing straight at the camera, rendered at 3x3
    let cam = Camera::new(Point3D::new(0, 0, 0), 90 * S, S);
    let sphere = Object::Sphere(Sphere::new(Point3D::new(0, 0, -S), 19661, red()));
    let light = Light::Directional(DirectionalLight::new(Vector3D::new(0, 0, S), white(), S));
    Scene::new(cam, vec![sphere], vec![light], Plane::default(), 3, 3)
}

#[test]
fn render_one_sphere_center_lit_corners_black() {
    let scene = one_sphere_scene();
    let image = scene.render();
    assert_eq!(image.len(), 9);
    let center = image[4];
    assert_ne!(center, (0, 0, 0), "the center pixel must be lit");
    assert!(center.0 > 200, "the sphere is pure red, got {:?}", center);
    assert_eq!(center.1, 0);
    assert_eq!(center.2, 0);
    for corner in [0usize, 2, 6, 8] {
        assert_eq!(image[corner], (0, 0, 0), "corner {} must be black", corner);
    }
}

#[test]
fn render_twice_is_byte_identical() {
    let scene = one_sphere_scene();
    let first = scene.render();
    let second = scene.render();
    assert_eq!(first, second);
}

#[test]
fn render_resolves_depth_toward_greater_z() {
    // two spheres on the same pixel: the hit with the greater Z (the
    // nearer one, looking down -Z) wins
    let cam = Camera::new(Point3D::new(0, 0, 0), 90 * S, S);
    let near = Object::Sphere(Sphere::new(Point3D::new(0, 0, -2 * S), S, red()));
    let far = Object::Sphere(Sphere::new(Point3D::new(0, 0, -4 * S), S, blue()));
    let light = Light::Directional(DirectionalLight::new(Vector3D::new(0, 0, S), white(), S));
    let scene = Scene::new(cam, vec![far, near], vec![light], Plane::default(), 3, 3);
    let image = scene.render();
    let center = image[4];
    assert!(center.0 > 200, "the near red sphere must win, got {:?}", center);
    assert_eq!(center.2, 0, "no blue from the far sphere, got {:?}", center);
}

#[test]
fn render_empty_scene_is_black() {
    let cam = Camera::new(Point3D::new(0, 0, 0), 90 * S, S);
    let scene = Scene::new(cam, vec![], vec![], Plane::default(), 2, 2);
    let image = scene.render();
    assert_eq!(image, vec![(0, 0, 0); 4]);
}

#[test]
fn render_single_pixel_image() {
    let cam = Camera::new(Point3D::new(0, 0, 0), 90 * S, S);
    let scene = Scene::new(cam, vec![], vec![], Plane::default(), 1, 1);
    let image = scene.render();
    assert_eq!(image, vec![(0, 0, 0)]);
}

#[test]
fn scene_builders_accumulate() {
    let mut scene: Scene = Default::default();
    assert_eq!((scene.width, scene.height), (0, 0));
    assert!(scene.objects.is_empty());
    assert!(scene.lights.is_empty());
    scene.add_size(4, 2);
    assert_eq!((scene.width, scene.height), (4, 2));
    scene.add_object(Object::Sphere(Sphere::new(Point3D::new(0, 0, 0), S, red())));
    assert_eq!(scene.objects.len(), 1);
    scene.add_light(Light::Directional(DirectionalLight::new(
        Vector3D::new(0, 0, S),
        white(),
        S,
    )));
    assert_eq!(scene.lights.len(), 1);
    scene.add_plane(Plane::new(Axis::X, 7, red()));
    assert_eq!(scene.plane.position, 7);
    assert_eq!(scene.plane.axis, Axis::X);
}

#[test]
fn average_of_four_pixels() {
    assert_eq!(
        average_rgb_pixels(&(255, 0, 0), &(0, 0, 0), &(0, 0, 0), &(0, 0, 0)),
        (63, 0, 0)
    );
    assert_eq!(
        average_rgb_pixels(&(1, 1, 1), &(2, 2, 2), &(3, 3, 3), &(4, 4, 4)),
        (2, 2, 2)
    );
    assert_eq!(
        average_rgb_pixels(&(255, 255, 255), &(255, 255, 255), &(255, 255, 255), &(255, 255, 255)),
        (255, 255, 255)
    );
}

#[test]
fn anti_aliasing_halves_both_dimensions() {
    let pixels = vec![(100, 0, 0), (200, 0, 0), (0, 100, 0), (0, 200, 0)];
    let out = apply_anti_aliasing(&pixels, 2, 2);
    assert_eq!(out, vec![(75, 75, 0)]);

    let wide = vec![
        (10, 0, 0), (20, 0, 0), (0, 40, 0), (0, 80, 0),
        (30, 0, 0), (40, 0, 0), (0, 120, 0), (0, 160, 0),
    ];
    let out2 = apply_anti_aliasing(&wide, 4, 2);
    assert_eq!(out2, vec![(25, 0, 0), (0, 100, 0)]);
}

#[test]
fn camera_default_matches_documented_values() {
    let cam: Camera = Default::default();
    assert_eq!(cam.fov, 90 * S);
    assert_eq!(cam.aspect_ratio, 116508);
    assert_eq!((cam.screen.origin.x, cam.screen.origin.y, cam.screen.origin.z), (-S, -S, -S));
}
