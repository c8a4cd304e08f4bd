//! The scene's primitives: spheres, infinite axis-aligned planes, and
//! infinite cylinders, each with ray intersection, surface normal, nominal
//! colour, and an albedo response.

use vstd::prelude::*;
use crate::fx::{fx_add, fx_sub, fx_mul, fx_div, fx_neg, fx_sqrt, SCALE, FX_TWO, FX_FOUR,
    FX_HALF, FX_NEG_ONE, FX_FOUR_PI};
use crate::fx::{add_fx, sub_fx, mul_fx, div_fx, neg_fx, sqrt_fx};
use crate::math::{Point3D, Vector3D, p_add, p_sub, v_dot, v_length, v_scale, v_normalize};
use crate::raytracer::Ray;

verus! {

/// Whether a probe struck a surface.
#[derive(PartialEq, Eq, Structural, Clone, Copy, Debug)]
pub enum HitResult {
    Hit,
    Missed,
}

/// The coordinate axis a plane or cylinder is tied to. A label outside the
/// three axes builds a plane that never reports a hit.
#[derive(PartialEq, Eq, Structural, Clone, Copy, Debug)]
pub enum Axis {
    X,
    Y,
    Z,
    Other,
}

/// A sphere: a center, a radius, and a nominal colour.
#[derive(Clone, Copy, Debug)]
pub struct Sphere {
    pub center: Point3D,
    pub radius: i64,
    pub color: Vector3D,
}

/// An infinite plane perpendicular to one axis at a signed integer offset.
/// The canonical state is `axis` and `position`; `origin` and `normal` are
/// derived from them at construction.
#[derive(Clone, Copy, Debug)]
pub struct Plane {
    pub origin: Point3D,
    pub normal: Vector3D,
    pub color: Vector3D,
    pub axis: Axis,
    pub position: i32,
}

/// An infinite cylinder along the Y axis, centered at `position` in X-Z.
#[derive(Clone, Copy, Debug)]
pub struct Cylinder {
    pub position: Point3D,
    pub radius: i64,
    pub color: Vector3D,
}

/// Where the sphere's quadratic reports a hit.
///
/// The root-selection rule: reject when both roots are negative, otherwise
/// take the smaller root and fall back to the larger one when the smaller is
/// negative.
pub open spec fn sphere_hit(s: Sphere, ray: Ray) -> Option<Point3D> {
    let oc = p_sub(ray.origin, s.center);
    let a = v_dot(ray.direction, ray.direction);
    let b = fx_mul(FX_TWO as int, v_dot(oc, ray.direction));
    let c = fx_sub(v_dot(oc, oc), fx_mul(s.radius as int, s.radius as int));
    let disc = fx_sub(fx_mul(b, b), fx_mul(fx_mul(FX_FOUR as int, a), c));
    if disc < 0 {
        None
    } else {
        let sq = fx_sqrt(disc);
        let t1 = fx_div(fx_sub(fx_neg(b), sq), fx_mul(FX_TWO as int, a));
        let t2 = fx_div(fx_add(fx_neg(b), sq), fx_mul(FX_TWO as int, a));
        if t1 < 0 && t2 < 0 {
            None
        } else {
            let t = if t1 >= 0 { t1 } else { t2 };
            Some(p_add(ray.origin, v_scale(ray.direction, t)))
        }
    }
}

/// The outward unit normal of a sphere at a surface point.
pub open spec fn sphere_normal(s: Sphere, hit_point: Point3D) -> Vector3D {
    v_normalize(p_sub(hit_point, s.center))
}

/// The fixed-point world coordinate of a plane's offset.
pub open spec fn plane_offset(p: Plane) -> int {
    p.position as int * SCALE as int
}

/// The ray's direction component and origin coordinate along a plane's axis.
pub open spec fn plane_axis_parts(p: Plane, ray: Ray) -> (int, int) {
    match p.axis {
        Axis::X => (ray.direction.x as int, ray.origin.x as int),
        Axis::Y => (ray.direction.y as int, ray.origin.y as int),
        Axis::Z => (ray.direction.z as int, ray.origin.z as int),
        Axis::Other => (0, 0),
    }
}

/// Where a plane reports a hit: exactly when the ray, extended forward,
/// crosses the plane, that is when the direction is not parallel to it and
/// the crossing parameter is non-negative.
pub open spec fn plane_hit(p: Plane, ray: Ray) -> Option<Point3D> {
    let (denom, oa) = plane_axis_parts(p, ray);
    if p.axis is Other || denom == 0 {
        None
    } else {
        let t = fx_div(fx_sub(plane_offset(p), oa), denom);
        if t < 0 {
            None
        } else {
            Some(p_add(ray.origin, v_scale(ray.direction, t)))
        }
    }
}

/// The unit normal of the plane's geometry: the axis it is perpendicular
/// to; the zero vector for a plane with an unknown axis label.
pub open spec fn plane_unit_normal(axis: Axis) -> Vector3D {
    match axis {
        Axis::X => Vector3D { x: SCALE, y: 0, z: 0 },
        Axis::Y => Vector3D { x: 0, y: SCALE, z: 0 },
        Axis::Z => Vector3D { x: 0, y: 0, z: SCALE },
        Axis::Other => Vector3D { x: 0, y: 0, z: 0 },
    }
}

/// A ray parallel to a plane never reports a hit, for any plane offset:
/// when the direction's dot product with the plane's unit normal is zero,
/// the probe returns nothing.
pub proof fn lemma_parallel_ray_misses_plane(p: Plane, ray: Ray)
    requires
        v_dot(ray.direction, plane_unit_normal(p.axis)) == 0,
    ensures
        plane_hit(p, ray) is None,
{
    lemma_mul_scale_identity(ray.direction.x as int);
    lemma_mul_scale_identity(ray.direction.y as int);
    lemma_mul_scale_identity(ray.direction.z as int);
}

/// Multiplying a scalar by 1.0 returns it, and by 0.0 yields 0.
proof fn lemma_mul_scale_identity(a: int)
    requires
        i64::MIN as int <= a <= i64::MAX as int,
    ensures
        fx_mul(a, SCALE as int) == a,
        fx_mul(a, 0) == 0,
{
    assert((vstd::math::abs(a) * SCALE as int) / (SCALE as int) == vstd::math::abs(a))
        by (nonlinear_arith);
    assert(a * SCALE as int == if a >= 0 { vstd::math::abs(a) * SCALE as int } else {
        -(vstd::math::abs(a) * SCALE as int)
    });
    assert(vstd::math::abs(a * SCALE as int) == vstd::math::abs(a) * SCALE as int);
    assert(a * 0 == 0) by (nonlinear_arith);
}

/// A plane shades with the negation of its stored normal.
pub open spec fn plane_shading_normal(p: Plane) -> Vector3D {
    v_scale(p.normal, FX_NEG_ONE as int)
}

/// Where the cylinder's quadratic (in the X-Z plane, Y ignored) reports a
/// hit. Any non-negative discriminant reports one; the smaller root is taken,
/// falling back to the larger one when the smaller is negative, even if the
/// larger is itself negative.
pub open spec fn cylinder_hit(c: Cylinder, ray: Ray) -> Option<Point3D> {
    let oc = p_sub(ray.origin, c.position);
    let a = fx_add(
        fx_mul(ray.direction.x as int, ray.direction.x as int),
        fx_mul(ray.direction.z as int, ray.direction.z as int),
    );
    let b = fx_mul(
        FX_TWO as int,
        fx_add(
            fx_mul(oc.x as int, ray.direction.x as int),
            fx_mul(oc.z as int, ray.direction.z as int),
        ),
    );
    let cc = fx_sub(
        fx_add(fx_mul(oc.x as int, oc.x as int), fx_mul(oc.z as int, oc.z as int)),
        fx_mul(c.radius as int, c.radius as int),
    );
    let disc = fx_sub(fx_mul(b, b), fx_mul(fx_mul(FX_FOUR as int, a), cc));
    if disc < 0 {
        None
    } else {
        let sq = fx_sqrt(disc);
        let t1 = fx_div(fx_sub(fx_neg(b), sq), fx_mul(FX_TWO as int, a));
        let t2 = fx_div(fx_add(fx_neg(b), sq), fx_mul(FX_TWO as int, a));
        let t = if t1 < 0 { t2 } else { t1 };
        Some(p_add(ray.origin, v_scale(ray.direction, t)))
    }
}

/// The cylinder's radial unit normal in the X-Z plane, sign-flipped at or
/// above one unit over the cylinder's base height (an approximate cap rule,
/// not a true end-cap test).
pub open spec fn cylinder_normal(c: Cylinder, hit_point: Point3D) -> Vector3D {
    let radial = v_normalize(
        Vector3D {
            x: fx_sub(hit_point.x as int, c.position.x as int) as i64,
            y: 0,
            z: fx_sub(hit_point.z as int, c.position.z as int) as i64,
        },
    );
    if (hit_point.y as int) < fx_add(c.position.y as int, SCALE as int) {
        radial
    } else {
        v_scale(radial, FX_NEG_ONE as int)
    }
}

/// The inverse-square-like albedo factor shared by sphere and cylinder:
/// colour scaled by `4 * pi * radius^2 / |light_dir|`. The divisor is the
/// light vector's length, a stand-in for distance.
pub open spec fn round_albedo(color: Vector3D, radius: int, light_dir: Vector3D) -> Vector3D {
    let radius_sq = fx_mul(radius, radius);
    let distance = v_length(light_dir);
    let factor = fx_div(fx_mul(FX_FOUR_PI as int, radius_sq), distance);
    v_scale(color, factor)
}

impl Default for Sphere {
    /// A degenerate sphere of radius zero at the origin.
    fn default() -> (r: Sphere)
        ensures
            r == (Sphere {
                center: Point3D { x: 0, y: 0, z: 0 },
                radius: 0,
                color: Vector3D { x: 0, y: 0, z: 0 },
            }),
    {
        Sphere {
            center: Point3D { x: 0, y: 0, z: 0 },
            radius: 0,
            color: Vector3D { x: 0, y: 0, z: 0 },
        }
    }
}

impl Default for Plane {
    /// A Z-axis plane through the origin with a zero stored normal.
    fn default() -> (r: Plane)
        ensures
            r == (Plane {
                origin: Point3D { x: 0, y: 0, z: 0 },
                normal: Vector3D { x: 0, y: 0, z: 0 },
                color: Vector3D { x: 0, y: 0, z: 0 },
                axis: Axis::Z,
                position: 0,
            }),
    {
        Plane {
            origin: Point3D { x: 0, y: 0, z: 0 },
            normal: Vector3D { x: 0, y: 0, z: 0 },
            color: Vector3D { x: 0, y: 0, z: 0 },
            axis: Axis::Z,
            position: 0,
        }
    }
}

impl Sphere {
    /// Build a sphere.
    pub fn new(center: Point3D, radius: i64, color: Vector3D) -> (r: Sphere)
        ensures
            r == (Sphere { center, radius, color }),
    {
        Sphere { center, radius, color }
    }

    /// Probe the sphere with a ray.
    pub fn hits(&self, ray: Ray) -> (r: Option<Point3D>)
        ensures
            r == sphere_hit(*self, ray),
    {
        let oc: Vector3D = ray.origin.sub(self.center);
        let a: i64 = ray.direction.dot(&ray.direction);
        let b: i64 = mul_fx(FX_TWO, oc.dot(&ray.direction));
        let c: i64 = sub_fx(oc.dot(&oc), mul_fx(self.radius, self.radius));
        let discriminant: i64 = sub_fx(mul_fx(b, b), mul_fx(mul_fx(FX_FOUR, a), c));
        if discriminant < 0 {
            return None;
        }
        let sqrt_discriminant: i64 = sqrt_fx(discriminant);
        let t1: i64 = div_fx(sub_fx(neg_fx(b), sqrt_discriminant), mul_fx(FX_TWO, a));
        let t2: i64 = div_fx(add_fx(neg_fx(b), sqrt_discriminant), mul_fx(FX_TWO, a));
        if t1 < 0 && t2 < 0 {
            return None;
        }
        let t: i64 = if t1 >= 0 { t1 } else { t2 };
        Some(ray.origin.add(ray.direction.scale(t)))
    }

    /// The outward unit normal at a surface point.
    pub fn surface_normal(&self, hit_point: &Point3D) -> (r: Vector3D)
        ensures
            r == sphere_normal(*self, *hit_point),
    {
        hit_point.sub(self.center).normalize()
    }

    /// The sphere's nominal center.
    pub fn get_center(&self) -> (r: Point3D)
        ensures
            r == self.center,
    {
        self.center
    }

    /// The sphere's nominal colour.
    pub fn get_color(&self) -> (r: Vector3D)
        ensures
            r == self.color,
    {
        self.color
    }

    /// The albedo response for a light vector.
    pub fn get_albedo(&self, hit_point: &Point3D, light_dir: &Vector3D) -> (r: Vector3D)
        ensures
            r == round_albedo(self.color, self.radius as int, *light_dir),
    {
        let radius_sq: i64 = mul_fx(self.radius, self.radius);
        let distance: i64 = light_dir.length();
        let factor: i64 = div_fx(mul_fx(FX_FOUR_PI, radius_sq), distance);
        self.color.scale(factor)
    }
}

impl Plane {
    /// Build a plane from an axis label, a signed integer offset along that
    /// axis, and a colour; the stored origin and normal are derived here.
    pub fn new(axis: Axis, position: i32, color: Vector3D) -> (r: Plane)
        ensures
            r.axis == axis,
            r.position == position,
            r.color == color,
            r.origin == plane_derived_origin(axis, position as int),
            r.normal == plane_derived_normal(axis),
    {
        let pos_fx: i64 = (position as i64) * SCALE;
        match axis {
            Axis::X => Plane {
                origin: Point3D { x: pos_fx, y: 0, z: 0 },
                normal: Vector3D { x: 0, y: 0, z: SCALE },
                color,
                axis,
                position,
            },
            Axis::Y => Plane {
                origin: Point3D { x: 0, y: pos_fx, z: 0 },
                normal: Vector3D { x: -SCALE, y: 0, z: 0 },
                color,
                axis,
                position,
            },
            _ => Plane {
                origin: Point3D { x: 0, y: 0, z: pos_fx },
                normal: Vector3D { x: 0, y: -SCALE, z: 0 },
                color,
                axis,
                position,
            },
        }
    }

    /// Re-orient the stored normal around an axis; the caller supplies the
    /// rotation angle's cosine and sine as fixed-point scalars.
    pub fn rotate(&mut self, axis: Axis, cos_a: i64, sin_a: i64)
        ensures
            final(self).normal == rotated_normal(old(self).normal, axis, cos_a as int, sin_a as int),
            final(self).origin == old(self).origin,
            final(self).color == old(self).color,
            final(self).axis == old(self).axis,
            final(self).position == old(self).position,
    {
        let n: Vector3D = self.normal;
        let new_normal: Vector3D = match axis {
            Axis::X => Vector3D {
                x: n.x,
                y: sub_fx(mul_fx(n.y, cos_a), mul_fx(n.z, sin_a)),
                z: add_fx(mul_fx(n.y, sin_a), mul_fx(n.z, cos_a)),
            },
            Axis::Y => Vector3D {
                x: add_fx(mul_fx(n.x, cos_a), mul_fx(n.z, sin_a)),
                y: n.y,
                z: add_fx(mul_fx(neg_fx(n.x), sin_a), mul_fx(n.z, cos_a)),
            },
            _ => Vector3D {
                x: sub_fx(mul_fx(n.x, cos_a), mul_fx(n.y, sin_a)),
                y: add_fx(mul_fx(n.x, sin_a), mul_fx(n.y, cos_a)),
                z: n.z,
            },
        };
        self.normal = new_normal;
    }

    /// Probe the plane with a ray.
    pub fn hits(&self, ray: Ray) -> (r: Option<Point3D>)
        ensures
            r == plane_hit(*self, ray),
    {
        let (denom, oa): (i64, i64) = match self.axis {
            Axis::X => (ray.direction.x, ray.origin.x),
            Axis::Y => (ray.direction.y, ray.origin.y),
            Axis::Z => (ray.direction.z, ray.origin.z),
            Axis::Other => { return None; },
        };
        if denom == 0 {
            return None;
        }
        let pos_fx: i64 = (self.position as i64) * SCALE;
        let t: i64 = div_fx(sub_fx(pos_fx, oa), denom);
        if t < 0 {
            return None;
        }
        Some(ray.origin.add(ray.direction.scale(t)))
    }

    /// The shading normal: the negation of the stored normal.
    pub fn surface_normal(&self, _hit_point: &Point3D) -> (r: Vector3D)
        ensures
            r == plane_shading_normal(*self),
    {
        self.normal.scale(FX_NEG_ONE)
    }

    /// The plane's nominal center: its derived origin.
    pub fn get_center(&self) -> (r: Point3D)
        ensures
            r == self.origin,
    {
        self.origin
    }

    /// The plane's nominal colour.
    pub fn get_color(&self) -> (r: Vector3D)
        ensures
            r == self.color,
    {
        self.color
    }

    /// A plane's albedo response is its colour, unattenuated.
    pub fn get_albedo(&self, _hit_point: &Point3D, _light_dir: &Vector3D) -> (r: Vector3D)
        ensures
            r == self.color,
    {
        self.color
    }
}

/// The origin a plane derives from its axis and offset.
pub open spec fn plane_derived_origin(axis: Axis, position: int) -> Point3D {
    let pos_fx = (position * SCALE as int) as i64;
    match axis {
        Axis::X => Point3D { x: pos_fx, y: 0, z: 0 },
        Axis::Y => Point3D { x: 0, y: pos_fx, z: 0 },
        _ => Point3D { x: 0, y: 0, z: pos_fx },
    }
}

/// The stored normal a plane derives from its axis.
pub open spec fn plane_derived_normal(axis: Axis) -> Vector3D {
    match axis {
        Axis::X => Vector3D { x: 0, y: 0, z: SCALE },
        Axis::Y => Vector3D { x: FX_NEG_ONE, y: 0, z: 0 },
        _ => Vector3D { x: 0, y: FX_NEG_ONE, z: 0 },
    }
}

/// A normal re-oriented around an axis by an angle given as cosine and sine.
pub open spec fn rotated_normal(n: Vector3D, axis: Axis, cos_a: int, sin_a: int) -> Vector3D {
    match axis {
        Axis::X => Vector3D {
            x: n.x,
            y: fx_sub(fx_mul(n.y as int, cos_a), fx_mul(n.z as int, sin_a)) as i64,
            z: fx_add(fx_mul(n.y as int, sin_a), fx_mul(n.z as int, cos_a)) as i64,
        },
        Axis::Y => Vector3D {
            x: fx_add(fx_mul(n.x as int, cos_a), fx_mul(n.z as int, sin_a)) as i64,
            y: n.y,
            z: fx_add(fx_mul(fx_neg(n.x as int), sin_a), fx_mul(n.z as int, cos_a)) as i64,
        },
        _ => Vector3D {
            x: fx_sub(fx_mul(n.x as int, cos_a), fx_mul(n.y as int, sin_a)) as i64,
            y: fx_add(fx_mul(n.x as int, sin_a), fx_mul(n.y as int, cos_a)) as i64,
            z: n.z,
        },
    }
}

impl Cylinder {
    /// Build a cylinder; the axis label is accepted for interface parity but
    /// the cylinder always runs along the Y axis.
    pub fn new(position: Point3D, radius: i64, _axis: Axis, color: Vector3D) -> (r: Cylinder)
        ensures
            r == (Cylinder { position, radius, color }),
    {
        Cylinder { position, radius, color }
    }

    /// Probe the cylinder with a ray.
    pub fn hits(&self, ray: Ray) -> (r: Option<Point3D>)
        ensures
            r == cylinder_hit(*self, ray),
    {
        let oc: Vector3D = ray.origin.sub(self.position);
        let a: i64 = add_fx(
            mul_fx(ray.direction.x, ray.direction.x),
            mul_fx(ray.direction.z, ray.direction.z),
        );
        let b: i64 = mul_fx(
            FX_TWO,
            add_fx(mul_fx(oc.x, ray.direction.x), mul_fx(oc.z, ray.direction.z)),
        );
        let c: i64 = sub_fx(
            add_fx(mul_fx(oc.x, oc.x), mul_fx(oc.z, oc.z)),
            mul_fx(self.radius, self.radius),
        );
        let discriminant: i64 = sub_fx(mul_fx(b, b), mul_fx(mul_fx(FX_FOUR, a), c));
        if discriminant < 0 {
            return None;
        }
        let sqrt_discriminant: i64 = sqrt_fx(discriminant);
        let t1: i64 = div_fx(sub_fx(neg_fx(b), sqrt_discriminant), mul_fx(FX_TWO, a));
        let t2: i64 = div_fx(add_fx(neg_fx(b), sqrt_discriminant), mul_fx(FX_TWO, a));
        let t: i64 = if t1 < 0 { t2 } else { t1 };
        Some(ray.origin.add(ray.direction.scale(t)))
    }

    /// The radial unit normal, sign-flipped above the cap threshold.
    pub fn surface_normal(&self, hit_point: &Point3D) -> (r: Vector3D)
        ensures
            r == cylinder_normal(*self, *hit_point),
    {
        let normal: Vector3D = Vector3D {
            x: sub_fx(hit_point.x, self.position.x),
            y: 0,
            z: sub_fx(hit_point.z, self.position.z),
        }.normalize();
        if hit_point.y < add_fx(self.position.y, SCALE) {
            normal
        } else {
            normal.scale(FX_NEG_ONE)
        }
    }

    /// The cylinder's nominal center: its base displaced half a unit up.
    pub fn get_center(&self) -> (r: Point3D)
        ensures
            r == p_add(self.position, Vector3D { x: 0, y: FX_HALF, z: 0 }),
    {
        self.position.add(Vector3D { x: 0, y: FX_HALF, z: 0 })
    }

    /// The cylinder's nominal colour.
    pub fn get_color(&self) -> (r: Vector3D)
        ensures
            r == self.color,
    {
        self.color
    }

    /// The albedo response for a light vector.
    pub fn get_albedo(&self, hit_point: &Point3D, light_dir: &Vector3D) -> (r: Vector3D)
        ensures
            r == round_albedo(self.color, self.radius as int, *light_dir),
    {
        let radius_sq: i64 = mul_fx(self.radius, self.radius);
        let distance: i64 = light_dir.length();
        let factor: i64 = div_fx(mul_fx(FX_FOUR_PI, radius_sq), distance);
        self.color.scale(factor)
    }
}

/// A primitive of the scene: the closed set of shapes the renderer knows.
#[derive(Clone, Copy, Debug)]
pub enum Object {
    Sphere(Sphere),
    Plane(Plane),
    Cylinder(Cylinder),
}

/// Where a primitive reports a hit.
pub open spec fn object_hit(o: Object, ray: Ray) -> Option<Point3D> {
    match o {
        Object::Sphere(s) => sphere_hit(s, ray),
        Object::Plane(p) => plane_hit(p, ray),
        Object::Cylinder(c) => cylinder_hit(c, ray),
    }
}

/// A primitive's shading normal at a surface point.
pub open spec fn object_normal(o: Object, hit_point: Point3D) -> Vector3D {
    match o {
        Object::Sphere(s) => sphere_normal(s, hit_point),
        Object::Plane(p) => plane_shading_normal(p),
        Object::Cylinder(c) => cylinder_normal(c, hit_point),
    }
}

/// A primitive's nominal center.
pub open spec fn object_center(o: Object) -> Point3D {
    match o {
        Object::Sphere(s) => s.center,
        Object::Plane(p) => p.origin,
        Object::Cylinder(c) => p_add(c.position, Vector3D { x: 0, y: FX_HALF, z: 0 }),
    }
}

/// A primitive's nominal colour.
pub open spec fn object_color(o: Object) -> Vector3D {
    match o {
        Object::Sphere(s) => s.color,
        Object::Plane(p) => p.color,
        Object::Cylinder(c) => c.color,
    }
}

/// A primitive's albedo response for a light vector.
pub open spec fn object_albedo(o: Object, light_dir: Vector3D) -> Vector3D {
    match o {
        Object::Sphere(s) => round_albedo(s.color, s.radius as int, light_dir),
        Object::Plane(p) => p.color,
        Object::Cylinder(c) => round_albedo(c.color, c.radius as int, light_dir),
    }
}

impl Object {
    /// Probe the primitive with a ray.
    pub fn hits(&self, ray: Ray) -> (r: Option<Point3D>)
        ensures
            r == object_hit(*self, ray),
    {
        match self {
            Object::Sphere(s) => s.hits(ray),
            Object::Plane(p) => p.hits(ray),
            Object::Cylinder(c) => c.hits(ray),
        }
    }

    /// The shading normal at a surface point.
    pub fn surface_normal(&self, hit_point: &Point3D) -> (r: Vector3D)
        ensures
            r == object_normal(*self, *hit_point),
    {
        match self {
            Object::Sphere(s) => s.surface_normal(hit_point),
            Object::Plane(p) => p.surface_normal(hit_point),
            Object::Cylinder(c) => c.surface_normal(hit_point),
        }
    }

    /// The primitive's nominal center, the identity used by the shadow test.
    pub fn get_center(&self) -> (r: Point3D)
        ensures
            r == object_center(*self),
    {
        match self {
            Object::Sphere(s) => s.get_center(),
            Object::Plane(p) => p.get_center(),
            Object::Cylinder(c) => c.get_center(),
        }
    }

    /// The primitive's nominal colour.
    pub fn get_color(&self) -> (r: Vector3D)
        ensures
            r == object_color(*self),
    {
        match self {
            Object::Sphere(s) => s.get_color(),
            Object::Plane(p) => p.get_color(),
            Object::Cylinder(c) => c.get_color(),
        }
    }

    /// The primitive's albedo response for a light vector.
    pub fn get_albedo(&self, hit_point: &Point3D, light_dir: &Vector3D) -> (r: Vector3D)
        ensures
            r == object_albedo(*self, *light_dir),
    {
        match self {
            Object::Sphere(s) => s.get_albedo(hit_point, light_dir),
            Object::Plane(p) => p.get_albedo(hit_point, light_dir),
            Object::Cylinder(c) => c.get_albedo(hit_point, light_dir),
        }
    }
}

} // verus!
