//! Rays, the pinhole camera, and the scene with its render loop.
//!
//! The render loop casts one primary ray per pixel in raster order (top row
//! first, left to right), collects every primitive the ray strikes, resolves
//! depth by the greatest hit-point Z coordinate, and shades the chosen point
//! against every light with a hard shadow test.

use vstd::prelude::*;
use vstd::arithmetic::div_mod::lemma_fundamental_div_mod;
use vstd::arithmetic::div_mod::lemma_fundamental_div_mod_converse;
use crate::fx::{fx_add, fx_mul, fx_div, fx_neg, tdiv, SCALE, FX_TWO, FX_HALF, FX_NEG_ONE,
    FX_255, FX_SHADOW_EPS};
use crate::fx::{add_fx, mul_fx, div_fx, neg_fx, trunc_div64};
use crate::math::{Point3D, Vector3D, p_add, p_sub, v_add, v_mul, v_scale, v_dot, v_normalize,
    v_color};
use crate::object::{Object, Plane, object_hit, object_normal, object_center, object_color};
use crate::light::{Light, light_direction, light_color, light_intensity};

verus! {

/// A query into the scene: an origin and a direction.
///
/// Intersection math treats the ray parameter as Euclidean distance only when
/// `direction` is unit length; the camera always produces normalized rays.
#[derive(Clone, Copy, Debug)]
pub struct Ray {
    pub origin: Point3D,
    pub direction: Vector3D,
}

impl Default for Ray {
    /// A ray at the origin with a zero direction.
    fn default() -> (r: Ray)
        ensures
            r == (Ray {
                origin: Point3D { x: 0, y: 0, z: 0 },
                direction: Vector3D { x: 0, y: 0, z: 0 },
            }),
    {
        Ray {
            origin: Point3D { x: 0, y: 0, z: 0 },
            direction: Vector3D { x: 0, y: 0, z: 0 },
        }
    }
}

impl Ray {
    /// Build a ray from an origin and a direction.
    pub fn new(origin: Point3D, direction: Vector3D) -> (r: Ray)
        ensures
            r == (Ray { origin, direction }),
    {
        Ray { origin, direction }
    }

    /// A copy of another ray.
    pub fn from(other: Ray) -> (r: Ray)
        ensures
            r == other,
    {
        other
    }
}

/// One entry of the tangent table: `tan` of a whole number of degrees,
/// in fixed point, for degrees 0 to 89; flat beyond.
pub open spec fn tan_entry(d: int) -> int {
    if d <= 0 { 0 } else if d == 1 { 1144 } else if d == 2 { 2289 }
    else if d == 3 { 3435 } else if d == 4 { 4583 }
    else if d == 5 { 5734 } else if d == 6 { 6888 }
    else if d == 7 { 8047 } else if d == 8 { 9210 }
    else if d == 9 { 10380 } else if d == 10 { 11556 }
    else if d == 11 { 12739 } else if d == 12 { 13930 }
    else if d == 13 { 15130 } else if d == 14 { 16340 }
    else if d == 15 { 17560 } else if d == 16 { 18792 }
    else if d == 17 { 20036 } else if d == 18 { 21294 }
    else if d == 19 { 22566 } else if d == 20 { 23853 }
    else if d == 21 { 25157 } else if d == 22 { 26478 }
    else if d == 23 { 27818 } else if d == 24 { 29179 }
    else if d == 25 { 30560 } else if d == 26 { 31964 }
    else if d == 27 { 33392 } else if d == 28 { 34846 }
    else if d == 29 { 36327 } else if d == 30 { 37837 }
    else if d == 31 { 39378 } else if d == 32 { 40951 }
    else if d == 33 { 42560 } else if d == 34 { 44205 }
    else if d == 35 { 45889 } else if d == 36 { 47615 }
    else if d == 37 { 49385 } else if d == 38 { 51202 }
    else if d == 39 { 53070 } else if d == 40 { 54991 }
    else if d == 41 { 56970 } else if d == 42 { 59009 }
    else if d == 43 { 61113 } else if d == 44 { 63287 }
    else if d == 45 { 65536 } else if d == 46 { 67865 }
    else if d == 47 { 70279 } else if d == 48 { 72785 }
    else if d == 49 { 75391 } else if d == 50 { 78103 }
    else if d == 51 { 80930 } else if d == 52 { 83882 }
    else if d == 53 { 86969 } else if d == 54 { 90203 }
    else if d == 55 { 93595 } else if d == 56 { 97161 }
    else if d == 57 { 100917 } else if d == 58 { 104880 }
    else if d == 59 { 109070 } else if d == 60 { 113512 }
    else if d == 61 { 118230 } else if d == 62 { 123255 }
    else if d == 63 { 128622 } else if d == 64 { 134369 }
    else if d == 65 { 140542 } else if d == 66 { 147196 }
    else if d == 67 { 154393 } else if d == 68 { 162207 }
    else if d == 69 { 170727 } else if d == 70 { 180059 }
    else if d == 71 { 190330 } else if d == 72 { 201699 }
    else if d == 73 { 214359 } else if d == 74 { 228551 }
    else if d == 75 { 244584 } else if d == 76 { 262851 }
    else if d == 77 { 283868 } else if d == 78 { 308323 }
    else if d == 79 { 337153 } else if d == 80 { 371673 }
    else if d == 81 { 413778 } else if d == 82 { 466313 }
    else if d == 83 { 533748 } else if d == 84 { 623533 }
    else if d == 85 { 749080 } else if d == 86 { 937208 }
    else if d == 87 { 1250501 } else if d == 88 { 1876705 }
    else { 3754555 }
}

/// The tangent table, executable form.
fn tan_entry_at(d: u32) -> (r: i64)
    ensures
        r as int == tan_entry(d as int),
{
    if d == 0 { 0 } else if d == 1 { 1144 } else if d == 2 { 2289 }
    else if d == 3 { 3435 } else if d == 4 { 4583 }
    else if d == 5 { 5734 } else if d == 6 { 6888 }
    else if d == 7 { 8047 } else if d == 8 { 9210 }
    else if d == 9 { 10380 } else if d == 10 { 11556 }
    else if d == 11 { 12739 } else if d == 12 { 13930 }
    else if d == 13 { 15130 } else if d == 14 { 16340 }
    else if d == 15 { 17560 } else if d == 16 { 18792 }
    else if d == 17 { 20036 } else if d == 18 { 21294 }
    else if d == 19 { 22566 } else if d == 20 { 23853 }
    else if d == 21 { 25157 } else if d == 22 { 26478 }
    else if d == 23 { 27818 } else if d == 24 { 29179 }
    else if d == 25 { 30560 } else if d == 26 { 31964 }
    else if d == 27 { 33392 } else if d == 28 { 34846 }
    else if d == 29 { 36327 } else if d == 30 { 37837 }
    else if d == 31 { 39378 } else if d == 32 { 40951 }
    else if d == 33 { 42560 } else if d == 34 { 44205 }
    else if d == 35 { 45889 } else if d == 36 { 47615 }
    else if d == 37 { 49385 } else if d == 38 { 51202 }
    else if d == 39 { 53070 } else if d == 40 { 54991 }
    else if d == 41 { 56970 } else if d == 42 { 59009 }
    else if d == 43 { 61113 } else if d == 44 { 63287 }
    else if d == 45 { 65536 } else if d == 46 { 67865 }
    else if d == 47 { 70279 } else if d == 48 { 72785 }
    else if d == 49 { 75391 } else if d == 50 { 78103 }
    else if d == 51 { 80930 } else if d == 52 { 83882 }
    else if d == 53 { 86969 } else if d == 54 { 90203 }
    else if d == 55 { 93595 } else if d == 56 { 97161 }
    else if d == 57 { 100917 } else if d == 58 { 104880 }
    else if d == 59 { 109070 } else if d == 60 { 113512 }
    else if d == 61 { 118230 } else if d == 62 { 123255 }
    else if d == 63 { 128622 } else if d == 64 { 134369 }
    else if d == 65 { 140542 } else if d == 66 { 147196 }
    else if d == 67 { 154393 } else if d == 68 { 162207 }
    else if d == 69 { 170727 } else if d == 70 { 180059 }
    else if d == 71 { 190330 } else if d == 72 { 201699 }
    else if d == 73 { 214359 } else if d == 74 { 228551 }
    else if d == 75 { 244584 } else if d == 76 { 262851 }
    else if d == 77 { 283868 } else if d == 78 { 308323 }
    else if d == 79 { 337153 } else if d == 80 { 371673 }
    else if d == 81 { 413778 } else if d == 82 { 466313 }
    else if d == 83 { 533748 } else if d == 84 { 623533 }
    else if d == 85 { 749080 } else if d == 86 { 937208 }
    else if d == 87 { 1250501 } else if d == 88 { 1876705 }
    else { 3754555 }
}

/// The camera's half height: the tangent of half the field-of-view angle
/// (given in fixed-point degrees), read from the one-degree table with linear
/// interpolation between entries, flat from 89 degrees up and zero below zero.
pub open spec fn tan_half(fov: int) -> int {
    let half = fx_div(fov, FX_TWO as int);
    if half < 0 {
        0
    } else {
        let d = tdiv(half, SCALE as int);
        if d >= 89 {
            tan_entry(89)
        } else {
            let frac = half - d * SCALE;
            fx_add(tan_entry(d), fx_mul(frac, tan_entry(d + 1) - tan_entry(d)))
        }
    }
}

/// The tangent of half the field-of-view angle, executable form.
fn tan_half_at(fov: i64) -> (r: i64)
    ensures
        r as int == tan_half(fov as int),
{
    let half: i64 = div_fx(fov, FX_TWO);
    if half < 0 {
        return 0;
    }
    let d: i64 = trunc_div64(half, SCALE);
    proof {
        assert(d as int == half as int / SCALE as int);
        lemma_fundamental_div_mod(half as int, SCALE as int);
    }
    if d >= 89 {
        return tan_entry_at(89);
    }
    let frac: i64 = half - d * SCALE;
    let lo: i64 = tan_entry_at(d as u32);
    let hi: i64 = tan_entry_at((d + 1) as u32);
    add_fx(lo, mul_fx(frac, hi - lo))
}

/// The view-plane rectangle one unit in front of the camera: a bottom-left
/// corner and the two edge vectors spanning the image plane.
#[derive(Clone, Copy, Debug)]
pub struct Rectangle3D {
    pub origin: Point3D,
    pub bottom_side: Vector3D,
    pub left_side: Vector3D,
}

/// The point on a rectangle reached by bilinear interpolation along its two
/// edge vectors from the bottom-left corner.
pub open spec fn rect_point_at(rect: Rectangle3D, u: int, v: int) -> Point3D {
    p_add(p_add(rect.origin, v_scale(rect.bottom_side, u)), v_scale(rect.left_side, v))
}

impl Default for Rectangle3D {
    /// The unit rectangle one unit behind the origin.
    fn default() -> (r: Rectangle3D)
        ensures
            r == (Rectangle3D {
                origin: Point3D { x: FX_NEG_ONE, y: FX_NEG_ONE, z: FX_NEG_ONE },
                bottom_side: Vector3D { x: SCALE, y: 0, z: 0 },
                left_side: Vector3D { x: 0, y: SCALE, z: 0 },
            }),
    {
        Rectangle3D {
            origin: Point3D { x: FX_NEG_ONE, y: FX_NEG_ONE, z: FX_NEG_ONE },
            bottom_side: Vector3D { x: SCALE, y: 0, z: 0 },
            left_side: Vector3D { x: 0, y: SCALE, z: 0 },
        }
    }
}

impl Rectangle3D {
    /// Build a rectangle from a corner and two edge vectors.
    pub fn new(origin: Point3D, bottom_side: Vector3D, left_side: Vector3D) -> (r: Rectangle3D)
        ensures
            r == (Rectangle3D { origin, bottom_side, left_side }),
    {
        Rectangle3D { origin, bottom_side, left_side }
    }

    /// The point reached by walking `u` along the bottom edge and `v` along
    /// the left edge from the bottom-left corner.
    pub fn point_at(&self, u: i64, v: i64) -> (r: Point3D)
        ensures
            r == rect_point_at(*self, u as int, v as int),
    {
        let p0: Point3D = self.origin;
        let v1: Vector3D = self.bottom_side;
        let v2: Vector3D = self.left_side;
        p0.add(v1.scale(u)).add(v2.scale(v))
    }
}

/// The screen rectangle a camera derives from its origin, field of view and
/// aspect ratio: half extents from the tangent of half the field of view,
/// edge vectors renormalized and rescaled to the full extents.
pub open spec fn camera_screen(origin: Point3D, fov: int, aspect_ratio: int) -> Rectangle3D {
    let half_height = tan_half(fov);
    let half_width = fx_mul(aspect_ratio, half_height);
    let bottom_left = p_add(
        origin,
        Vector3D {
            x: fx_neg(half_width) as i64,
            y: fx_neg(half_height) as i64,
            z: FX_NEG_ONE,
        },
    );
    let right = v_normalize(
        Vector3D { x: fx_mul(FX_TWO as int, half_width) as i64, y: 0, z: 0 },
    );
    let up = v_normalize(
        Vector3D { x: 0, y: fx_mul(FX_TWO as int, half_height) as i64, z: 0 },
    );
    Rectangle3D {
        origin: bottom_left,
        bottom_side: v_scale(right, fx_mul(FX_TWO as int, half_width)),
        left_side: v_scale(up, fx_mul(FX_TWO as int, half_height)),
    }
}

/// The primary ray for a normalized screen coordinate: from the camera's
/// origin toward the interpolated point on the screen rectangle, normalized.
pub open spec fn camera_ray(c: Camera, u: int, v: int) -> Ray {
    Ray {
        origin: c.origin,
        direction: v_normalize(p_sub(rect_point_at(c.screen, u, v), c.origin)),
    }
}

/// A pinhole camera: an origin and the derived screen rectangle, with the
/// field of view (fixed-point degrees) and aspect ratio it was built from.
#[derive(Clone, Copy, Debug)]
pub struct Camera {
    pub origin: Point3D,
    pub screen: Rectangle3D,
    pub fov: i64,
    pub aspect_ratio: i64,
}

impl Default for Camera {
    /// A camera at the origin with the default screen, a 90 degree field of
    /// view and a 16:9 aspect ratio (both in fixed point).
    fn default() -> (r: Camera)
        ensures
            r == (Camera {
                origin: Point3D { x: 0, y: 0, z: 0 },
                screen: Rectangle3D {
                    origin: Point3D { x: FX_NEG_ONE, y: FX_NEG_ONE, z: FX_NEG_ONE },
                    bottom_side: Vector3D { x: SCALE, y: 0, z: 0 },
                    left_side: Vector3D { x: 0, y: SCALE, z: 0 },
                },
                fov: 5898240,
                aspect_ratio: 116508,
            }),
    {
        Camera {
            origin: Point3D { x: 0, y: 0, z: 0 },
            screen: Rectangle3D {
                origin: Point3D { x: FX_NEG_ONE, y: FX_NEG_ONE, z: FX_NEG_ONE },
                bottom_side: Vector3D { x: SCALE, y: 0, z: 0 },
                left_side: Vector3D { x: 0, y: SCALE, z: 0 },
            },
            fov: 5898240,
            aspect_ratio: 116508,
        }
    }
}

impl Camera {
    /// Build a camera; the screen rectangle is recomputed deterministically
    /// from the origin, field of view and aspect ratio.
    pub fn new(origin: Point3D, fov: i64, aspect_ratio: i64) -> (r: Camera)
        ensures
            r.origin == origin,
            r.fov == fov,
            r.aspect_ratio == aspect_ratio,
            r.screen == camera_screen(origin, fov as int, aspect_ratio as int),
    {
        let screen: Rectangle3D = Self::calculate_screen(origin, fov, aspect_ratio);
        Camera { origin, screen, fov, aspect_ratio }
    }

    /// The primary ray for a normalized screen coordinate, a pure function
    /// of `(u, v)` for fixed camera parameters.
    pub fn ray(&self, u: i64, v: i64) -> (r: Ray)
        ensures
            r == camera_ray(*self, u as int, v as int),
    {
        Ray::new(self.origin, self.screen.point_at(u, v).sub(self.origin).normalize())
    }

    /// Derive the screen rectangle from origin, field of view and aspect.
    pub fn calculate_screen(origin: Point3D, fov: i64, aspect_ratio: i64) -> (r: Rectangle3D)
        ensures
            r == camera_screen(origin, fov as int, aspect_ratio as int),
    {
        let half_height: i64 = tan_half_at(fov);
        let half_width: i64 = mul_fx(aspect_ratio, half_height);
        let bottom_left_v: Vector3D = Vector3D {
            x: neg_fx(half_width),
            y: neg_fx(half_height),
            z: FX_NEG_ONE,
        };
        let right: Vector3D = Vector3D { x: mul_fx(FX_TWO, half_width), y: 0, z: 0 }.normalize();
        let up: Vector3D = Vector3D { x: 0, y: mul_fx(FX_TWO, half_height), z: 0 }.normalize();
        let bottom_left: Point3D = origin.add(bottom_left_v);
        let bottom_side: Vector3D = right.scale(mul_fx(FX_TWO, half_width));
        let left_side: Vector3D = up.scale(mul_fx(FX_TWO, half_height));
        Rectangle3D::new(bottom_left, bottom_side, left_side)
    }
}

/// The scene: camera, primitives, lights, and the output size in pixels.
pub struct Scene {
    pub width: u32,
    pub height: u32,
    pub camera: Camera,
    pub objects: Vec<Object>,
    pub lights: Vec<Light>,
    pub plane: Plane,
}

/// Whether any primitive other than the shaded one (identity compared by
/// nominal center) blocks a shadow ray.
pub open spec fn is_shadowed(center: Point3D, shadow_ray: Ray, objects: Seq<Object>) -> bool
    decreases objects.len(),
{
    if objects.len() == 0 {
        false
    } else {
        is_shadowed(center, shadow_ray, objects.drop_last()) || (object_center(objects.last())
            != center && object_hit(objects.last(), shadow_ray) is Some)
    }
}

/// The shadow ray cast for a shaded point: from the hit point nudged off the
/// surface along the normal, toward the light.
pub open spec fn shadow_probe(object: Object, light: Light, hit_point: Point3D) -> Ray {
    Ray {
        origin: p_add(
            hit_point,
            v_scale(object_normal(object, hit_point), FX_SHADOW_EPS as int),
        ),
        direction: v_normalize(light_direction(light)),
    }
}

/// One light's contribution to a shaded point: Lambertian diffuse power,
/// the normalized product of surface and light colour scaled into the 0-255
/// range, halved when the shadow ray from just off the surface strikes any
/// other primitive.
pub open spec fn lighting(object: Object, light: Light, hit_point: Point3D, objects: Seq<Object>)
    -> Vector3D {
    let surface_normal = object_normal(object, hit_point);
    let direction_to_light = v_normalize(light_direction(light));
    let d = v_dot(surface_normal, direction_to_light);
    let light_power = fx_mul(if d > 0 { d } else { 0 }, light_intensity(light));
    let base = v_scale(v_normalize(v_mul(object_color(object), light_color(light))), light_power);
    let scaled = Vector3D {
        x: fx_mul(base.x as int, FX_255 as int) as i64,
        y: fx_mul(base.y as int, FX_255 as int) as i64,
        z: fx_mul(base.z as int, FX_255 as int) as i64,
    };
    if is_shadowed(object_center(object), shadow_probe(object, light, hit_point), objects) {
        v_scale(scaled, FX_HALF as int)
    } else {
        scaled
    }
}

/// An occluded point is lit at exactly half strength: with the object, light
/// and hit point held fixed, a scene whose primitives block the shadow probe
/// yields the channelwise half of what a scene with a clear probe yields.
pub proof fn lemma_shadow_halves(object: Object, light: Light, hit_point: Point3D,
    occluded: Seq<Object>, clear: Seq<Object>)
    requires
        is_shadowed(object_center(object), shadow_probe(object, light, hit_point), occluded),
        !is_shadowed(object_center(object), shadow_probe(object, light, hit_point), clear),
    ensures
        lighting(object, light, hit_point, occluded) == v_scale(
            lighting(object, light, hit_point, clear),
            FX_HALF as int,
        ),
{
}

/// The index of the first hit point with the greatest Z coordinate.
pub open spec fn first_max_z(pts: Seq<Point3D>) -> int
    decreases pts.len(),
{
    if pts.len() <= 1 {
        0
    } else {
        let j = first_max_z(pts.drop_last());
        if pts.last().z > pts[j].z {
            pts.len() - 1
        } else {
            j
        }
    }
}

/// `first_max_z` returns an index of the sequence.
pub proof fn lemma_first_max_z_bounds(pts: Seq<Point3D>)
    requires
        pts.len() >= 1,
    ensures
        0 <= first_max_z(pts) < pts.len(),
    decreases pts.len(),
{
    if pts.len() > 1 {
        lemma_first_max_z_bounds(pts.drop_last());
    }
}

/// Depth resolution selects a maximal Z, and the first index that attains it:
/// every hit point's Z is at most the chosen one's, and every earlier hit
/// point's Z is strictly below it.
pub proof fn lemma_first_max_z_selects_max(pts: Seq<Point3D>)
    requires
        pts.len() >= 1,
    ensures
        0 <= first_max_z(pts) < pts.len(),
        forall|k: int| 0 <= k < pts.len() ==> #[trigger] pts[k].z <= pts[first_max_z(pts)].z,
        forall|k: int| 0 <= k < first_max_z(pts) ==> #[trigger] pts[k].z < pts[first_max_z(pts)].z,
    decreases pts.len(),
{
    lemma_first_max_z_bounds(pts);
    if pts.len() > 1 {
        lemma_first_max_z_selects_max(pts.drop_last());
        let j = first_max_z(pts.drop_last());
        assert(forall|k: int| 0 <= k < pts.len() - 1 ==> pts[k] == pts.drop_last()[k]);
    }
}

/// Insert a primitive into a sequence sorted by descending center Z, after
/// every primitive whose key is at least its own (a stable insertion).
pub open spec fn insert_desc(s: Seq<Object>, x: Object) -> Seq<Object>
    decreases s.len(),
{
    if s.len() == 0 {
        seq![x]
    } else if object_center(s[0]).z < object_center(x).z {
        seq![x] + s
    } else {
        seq![s[0]] + insert_desc(s.drop_first(), x)
    }
}

/// The scene's primitives stably sorted by descending center Z.
pub open spec fn sorted_objects(s: Seq<Object>) -> Seq<Object>
    decreases s.len(),
{
    if s.len() == 0 {
        Seq::empty()
    } else {
        insert_desc(sorted_objects(s.drop_last()), s.last())
    }
}

/// Inserting at the first position whose key is strictly below the new key
/// is what `insert_desc` does.
proof fn lemma_insert_desc_at(s: Seq<Object>, x: Object, p: int)
    requires
        0 <= p <= s.len(),
        forall|k: int| 0 <= k < p ==> object_center(s[k]).z >= object_center(x).z,
        p < s.len() ==> object_center(s[p]).z < object_center(x).z,
    ensures
        insert_desc(s, x) =~= s.insert(p, x),
    decreases s.len(),
{
    if s.len() == 0 {
    } else if object_center(s[0]).z < object_center(x).z {
        assert(p == 0);
    } else {
        assert(p >= 1);
        lemma_insert_desc_at(s.drop_first(), x, p - 1);
    }
}

/// The hit points that the primitives report for a ray, in primitive order.
pub open spec fn cand_points(objects: Seq<Object>, ray: Ray) -> Seq<Point3D>
    decreases objects.len(),
{
    if objects.len() == 0 {
        Seq::empty()
    } else {
        let rest = cand_points(objects.drop_last(), ray);
        match object_hit(objects.last(), ray) {
            Some(p) => rest.push(p),
            None => rest,
        }
    }
}

/// The primitives that report a hit for a ray, in primitive order.
pub open spec fn cand_shapes(objects: Seq<Object>, ray: Ray) -> Seq<Object>
    decreases objects.len(),
{
    if objects.len() == 0 {
        Seq::empty()
    } else {
        let rest = cand_shapes(objects.drop_last(), ray);
        match object_hit(objects.last(), ray) {
            Some(p) => rest.push(objects.last()),
            None => rest,
        }
    }
}

/// The two candidate sequences run in step.
pub proof fn lemma_cand_lengths(objects: Seq<Object>, ray: Ray)
    ensures
        cand_points(objects, ray).len() == cand_shapes(objects, ray).len(),
    decreases objects.len(),
{
    if objects.len() > 0 {
        lemma_cand_lengths(objects.drop_last(), ray);
    }
}

/// The lights' contributions summed in order, from the zero colour.
pub open spec fn shade(object: Object, hit_point: Point3D, lights: Seq<Light>,
    objects: Seq<Object>) -> Vector3D
    decreases lights.len(),
{
    if lights.len() == 0 {
        Vector3D { x: 0, y: 0, z: 0 }
    } else {
        v_add(
            shade(object, hit_point, lights.drop_last(), objects),
            lighting(object, lights.last(), hit_point, objects),
        )
    }
}

/// One pixel of the output: the primary ray for the pixel's normalized
/// coordinate, every candidate hit collected, depth resolved by greatest Z,
/// and the chosen point shaded against every light; black when nothing is
/// struck.
pub open spec fn pixel_color(camera: Camera, sorted: Seq<Object>, lights: Seq<Light>,
    width: int, height: int, x: int, y: int) -> (u8, u8, u8) {
    let u = fx_div(x * SCALE as int, (width - 1) * SCALE as int);
    let v = fx_div(y * SCALE as int, (height - 1) * SCALE as int);
    let ray = camera_ray(camera, u, v);
    let pts = cand_points(sorted, ray);
    let shapes = cand_shapes(sorted, ray);
    if pts.len() == 0 {
        (0u8, 0u8, 0u8)
    } else {
        let j = first_max_z(pts);
        v_color(shade(shapes[j], pts[j], lights, sorted))
    }
}

/// The full image: one colour triple per pixel, in raster order (top row
/// first, left to right), over the primitives sorted by descending center Z.
pub open spec fn render_spec(s: Scene) -> Seq<(u8, u8, u8)> {
    let sorted = sorted_objects(s.objects@);
    Seq::new(
        (s.width as nat) * (s.height as nat),
        |i: int| pixel_color(
            s.camera,
            sorted,
            s.lights@,
            s.width as int,
            s.height as int,
            i % (s.width as int),
            s.height as int - 1 - i / (s.width as int),
        ),
    )
}

/// Rendering is idempotent: the image is a pure function of the scene, so
/// two renders of an identical scene are byte-identical.
pub proof fn lemma_render_idempotent(s: &Scene, first: Seq<(u8, u8, u8)>, second: Seq<(
    u8,
    u8,
    u8,
)>)
    requires
        first == render_spec(*s),
        second == render_spec(*s),
    ensures
        first == second,
{
}

/// The scene's primitives stably sorted by descending center Z, by insertion.
fn sort_objects(objects: &Vec<Object>) -> (r: Vec<Object>)
    ensures
        r@ == sorted_objects(objects@),
{
    let mut out: Vec<Object> = Vec::new();
    let mut i: usize = 0;
    while i < objects.len()
        invariant
            i <= objects@.len(),
            out@ == sorted_objects(objects@.take(i as int)),
        decreases objects@.len() - i,
    {
        let obj: Object = objects[i];
        let key: i64 = obj.get_center().z;
        let mut pos: usize = 0;
        let mut done: bool = false;
        while !done
            invariant
                pos <= out@.len(),
                forall|k: int| 0 <= k < pos ==> object_center(out@[k]).z >= key as int,
                done ==> (pos == out@.len() || object_center(out@[pos as int]).z < key as int),
                key as int == object_center(obj).z,
            decreases out@.len() - pos + (if done { 0int } else { 1int }),
        {
            if pos == out.len() {
                done = true;
            } else if out[pos].get_center().z < key {
                done = true;
            } else {
                pos = pos + 1;
            }
        }
        proof {
            lemma_insert_desc_at(out@, obj, pos as int);
            assert(objects@.take(i + 1).drop_last() =~= objects@.take(i as int));
            assert(objects@.take(i + 1).last() == objects@[i as int]);
        }
        out.insert(pos, obj);
        i = i + 1;
    }
    proof {
        assert(objects@.take(objects@.len() as int) =~= objects@);
    }
    out
}

impl Default for Scene {
    /// An empty zero-size scene with the default camera and plane.
    fn default() -> (r: Scene)
        ensures
            r.camera == (Camera {
                origin: Point3D { x: 0, y: 0, z: 0 },
                screen: Rectangle3D {
                    origin: Point3D { x: FX_NEG_ONE, y: FX_NEG_ONE, z: FX_NEG_ONE },
                    bottom_side: Vector3D { x: SCALE, y: 0, z: 0 },
                    left_side: Vector3D { x: 0, y: SCALE, z: 0 },
                },
                fov: 5898240,
                aspect_ratio: 116508,
            }),
            r.objects@ == Seq::<Object>::empty(),
            r.lights@ == Seq::<Light>::empty(),
            r.plane == (Plane {
                origin: Point3D { x: 0, y: 0, z: 0 },
                normal: Vector3D { x: 0, y: 0, z: 0 },
                color: Vector3D { x: 0, y: 0, z: 0 },
                axis: crate::object::Axis::Z,
                position: 0,
            }),
            r.width == 0u32,
            r.height == 0u32,
    {
        Scene {
            camera: Camera::default(),
            objects: Vec::new(),
            lights: Vec::new(),
            plane: Plane::default(),
            width: 0,
            height: 0,
        }
    }
}

impl Scene {
    /// Build a scene from its parts.
    pub fn new(camera: Camera, objects: Vec<Object>, lights: Vec<Light>, plane: Plane,
        width: u32, height: u32) -> (r: Scene)
        ensures
            r.camera == camera,
            r.objects == objects,
            r.lights == lights,
            r.plane == plane,
            r.width == width,
            r.height == height,
    {
        Scene { camera, objects, lights, plane, width, height }
    }

    /// Append a primitive to the scene.
    pub fn add_object(&mut self, object: Object)
        ensures
            final(self).objects@ == old(self).objects@.push(object),
            final(self).lights == old(self).lights,
            final(self).camera == old(self).camera,
            final(self).plane == old(self).plane,
            final(self).width == old(self).width,
            final(self).height == old(self).height,
    {
        self.objects.push(object);
    }

    /// Append a light to the scene.
    pub fn add_light(&mut self, light: Light)
        ensures
            final(self).lights@ == old(self).lights@.push(light),
            final(self).objects == old(self).objects,
            final(self).camera == old(self).camera,
            final(self).plane == old(self).plane,
            final(self).width == old(self).width,
            final(self).height == old(self).height,
    {
        self.lights.push(light);
    }

    /// Replace the scene's standalone plane.
    pub fn add_plane(&mut self, plane: Plane)
        ensures
            final(self).plane == plane,
            final(self).objects == old(self).objects,
            final(self).lights == old(self).lights,
            final(self).camera == old(self).camera,
            final(self).width == old(self).width,
            final(self).height == old(self).height,
    {
        self.plane = plane;
    }

    /// Set the output size in pixels.
    pub fn add_size(&mut self, width: u32, height: u32)
        ensures
            final(self).width == width,
            final(self).height == height,
            final(self).objects == old(self).objects,
            final(self).lights == old(self).lights,
            final(self).camera == old(self).camera,
            final(self).plane == old(self).plane,
    {
        self.width = width;
        self.height = height;
    }

    /// One light's contribution to a shaded point, with the hard shadow
    /// test against every other primitive.
    pub fn compute_lighting_directional(object: &Object, light: &Light, hit_point: &Point3D,
        _ray: &Ray, objects: &Vec<Object>) -> (r: Vector3D)
        ensures
            r == lighting(*object, *light, *hit_point, objects@),
    {
        let surface_normal: Vector3D = object.surface_normal(hit_point);
        let direction_to_light: Vector3D = light.get_direction().normalize();
        let d: i64 = surface_normal.dot(&direction_to_light);
        let dmax: i64 = if d > 0 { d } else { 0 };
        let light_power: i64 = mul_fx(dmax, light.get_intensity());

        let shadow_ray: Ray = Ray::new(
            hit_point.add(surface_normal.scale(FX_SHADOW_EPS)),
            direction_to_light,
        );

        let my_center: Point3D = object.get_center();
        let mut shadowed: bool = false;
        let mut i: usize = 0;
        while i < objects.len()
            invariant
                i <= objects@.len(),
                shadowed == is_shadowed(my_center, shadow_ray, objects@.take(i as int)),
                my_center == object_center(*object),
                shadow_ray == (Ray {
                    origin: p_add(
                        *hit_point,
                        v_scale(object_normal(*object, *hit_point), FX_SHADOW_EPS as int),
                    ),
                    direction: v_normalize(light_direction(*light)),
                }),
            decreases objects@.len() - i,
        {
            let other: &Object = &objects[i];
            if !(my_center == other.get_center()) {
                if other.hits(shadow_ray).is_some() {
                    shadowed = true;
                }
            }
            proof {
                assert(objects@.take(i + 1).drop_last() =~= objects@.take(i as int));
                assert(objects@.take(i + 1).last() == objects@[i as int]);
            }
            i = i + 1;
        }
        proof {
            assert(objects@.take(objects@.len() as int) =~= objects@);
        }

        let color: Vector3D = object.get_color().mul(light.get_color()).normalize().scale(
            light_power,
        );
        let new_color: Vector3D = Vector3D::new(
            mul_fx(color.x, FX_255),
            mul_fx(color.y, FX_255),
            mul_fx(color.z, FX_255),
        );
        if shadowed {
            new_color.scale(FX_HALF)
        } else {
            new_color
        }
    }

    /// The index of the first hit point with the greatest Z coordinate: no
    /// hit point lies beyond the chosen one, and every earlier hit point
    /// lies strictly below it.
    pub fn find_greater_z(&self, hitting_points: &Vec<Point3D>) -> (r: usize)
        requires
            hitting_points@.len() >= 1,
        ensures
            r as int == first_max_z(hitting_points@),
            r < hitting_points@.len(),
            forall|k: int| 0 <= k < hitting_points@.len() ==> #[trigger] hitting_points@[k].z
                <= hitting_points@[r as int].z,
            forall|k: int| 0 <= k < r ==> #[trigger] hitting_points@[k].z
                < hitting_points@[r as int].z,
    {
        proof {
            lemma_first_max_z_selects_max(hitting_points@);
        }
        let mut greater_z: i64 = hitting_points[0].z;
        let mut index: usize = 0;
        let mut j: usize = 0;
        while index < hitting_points.len()
            invariant
                index <= hitting_points@.len(),
                hitting_points@.len() >= 1,
                index == 0 ==> j == 0 && greater_z == hitting_points@[0].z,
                index >= 1 ==> {
                    let m = first_max_z(hitting_points@.take(index as int));
                    j as int == m && greater_z == hitting_points@[m].z && j < index
                },
            decreases hitting_points@.len() - index,
        {
            proof {
                let t = hitting_points@.take(index as int + 1);
                assert(t.drop_last() =~= hitting_points@.take(index as int));
                assert(t.last() == hitting_points@[index as int]);
                if index as int + 1 > 1 {
                    lemma_first_max_z_bounds(hitting_points@.take(index as int));
                }
            }
            if hitting_points[index].z > greater_z {
                greater_z = hitting_points[index].z;
                j = index;
            }
            index = index + 1;
        }
        proof {
            assert(hitting_points@.take(hitting_points@.len() as int) =~= hitting_points@);
            lemma_first_max_z_bounds(hitting_points@);
        }
        j
    }

    /// Render the scene: one colour triple per pixel in raster order. The
    /// result is a pure function of the scene, so rendering twice yields
    /// identical output.
    pub fn render(&self) -> (r: Vec<(u8, u8, u8)>)
        ensures
            r@ == render_spec(*self),
            r@.len() == self.width * self.height,
    {
        let sorted: Vec<Object> = sort_objects(&self.objects);
        let ghost gw = self.width as int;
        let ghost gh = self.height as int;
        let mut out: Vec<(u8, u8, u8)> = Vec::new();
        let mut yi: u32 = 0;
        while yi < self.height
            invariant
                yi <= self.height,
                sorted@ == sorted_objects(self.objects@),
                gw == self.width as int,
                gh == self.height as int,
                out@.len() == yi as int * gw,
                forall|i: int| 0 <= i < out@.len() ==> out@[i] == pixel_color(
                    self.camera, sorted@, self.lights@, gw, gh, i % gw, gh - 1 - i / gw,
                ),
            decreases self.height - yi,
        {
            let y: u32 = self.height - 1 - yi;
            let mut x: u32 = 0;
            while x < self.width
                invariant
                    yi < self.height,
                    x <= self.width,
                    y == self.height - 1 - yi,
                    sorted@ == sorted_objects(self.objects@),
                    gw == self.width as int,
                    gh == self.height as int,
                    out@.len() == yi as int * gw + x as int,
                    forall|i: int| 0 <= i < out@.len() ==> out@[i] == pixel_color(
                        self.camera, sorted@, self.lights@, gw, gh, i % gw, gh - 1 - i / gw,
                    ),
                decreases self.width - x,
            {
                let u: i64 = div_fx((x as i64) * SCALE, ((self.width - 1) as i64) * SCALE);
                let v: i64 = div_fx((y as i64) * SCALE, ((self.height - 1) as i64) * SCALE);
                let ray: Ray = self.camera.ray(u, v);

                let mut hitting_points: Vec<Point3D> = Vec::new();
                let mut hitting_shapes: Vec<Object> = Vec::new();
                let mut oi: usize = 0;
                while oi < sorted.len()
                    invariant
                        oi <= sorted@.len(),
                        hitting_points@ == cand_points(sorted@.take(oi as int), ray),
                        hitting_shapes@ == cand_shapes(sorted@.take(oi as int), ray),
                    decreases sorted@.len() - oi,
                {
                    let s: Object = sorted[oi];
                    proof {
                        assert(sorted@.take(oi + 1).drop_last() =~= sorted@.take(oi as int));
                        assert(sorted@.take(oi + 1).last() == sorted@[oi as int]);
                    }
                    if let Some(hit_point) = s.hits(ray) {
                        hitting_points.push(hit_point);
                        hitting_shapes.push(s);
                    }
                    oi = oi + 1;
                }
                proof {
                    assert(sorted@.take(sorted@.len() as int) =~= sorted@);
                }

                let pixel: (u8, u8, u8);
                if hitting_points.len() == 0 {
                    pixel = (0u8, 0u8, 0u8);
                } else {
                    proof {
                        lemma_cand_lengths(sorted@, ray);
                        lemma_first_max_z_bounds(hitting_points@);
                    }
                    let index: usize = self.find_greater_z(&hitting_points);
                    let mut hit_color: Vector3D = Vector3D::new(0, 0, 0);
                    let mut li: usize = 0;
                    while li < self.lights.len()
                        invariant
                            li <= self.lights@.len(),
                            index < hitting_points@.len(),
                            index < hitting_shapes@.len(),
                            sorted@ == sorted_objects(self.objects@),
                            hit_color == shade(
                                hitting_shapes@[index as int],
                                hitting_points@[index as int],
                                self.lights@.take(li as int),
                                sorted@,
                            ),
                        decreases self.lights@.len() - li,
                    {
                        proof {
                            assert(self.lights@.take(li + 1).drop_last() =~= self.lights@.take(
                                li as int,
                            ));
                            assert(self.lights@.take(li + 1).last() == self.lights@[li as int]);
                        }
                        let contribution: Vector3D = Scene::compute_lighting_directional(
                            &hitting_shapes[index],
                            &self.lights[li],
                            &hitting_points[index],
                            &ray,
                            &sorted,
                        );
                        hit_color = hit_color.add(contribution);
                        li = li + 1;
                    }
                    proof {
                        assert(self.lights@.take(self.lights@.len() as int) =~= self.lights@);
                    }
                    pixel = hit_color.get_color();
                }

                proof {
                    let i = yi as int * gw + x as int;
                    lemma_fundamental_div_mod_converse(i, gw, yi as int, x as int);
                    assert(pixel == pixel_color(
                        self.camera, sorted@, self.lights@, gw, gh, i % gw, gh - 1 - i / gw,
                    ));
                }
                out.push(pixel);
                x = x + 1;
            }
            proof {
                assert((yi as int + 1) * gw == yi as int * gw + gw) by (nonlinear_arith);
            }
            yi = yi + 1;
        }
        proof {
            assert(out@.len() == gh * gw);
            assert((self.width as nat) * (self.height as nat) == gh * gw) by (nonlinear_arith)
                requires gw == self.width as int, gh == self.height as int;
            assert(out@ =~= render_spec(*self));
        }
        out
    }
}

} // verus!
