//! Light sources: directional, point, and ambient, each exposing a
//! direction, colour and intensity triple consumed by shading.

use vstd::prelude::*;
use crate::fx::SCALE;
use crate::math::{Point3D, Vector3D, p_sub, v_normalize};

verus! {

/// Parallel rays from infinity, like sunlight.
#[derive(Clone, Copy, Debug)]
pub struct DirectionalLight {
    pub direction: Vector3D,
    pub color: Vector3D,
    pub intensity: i64,
}

/// A light at a position; its shading direction is the normalized vector
/// from the world origin to that position, not from the shaded point.
#[derive(Clone, Copy, Debug)]
pub struct PointLight {
    pub position: Point3D,
    pub color: Vector3D,
    pub intensity: i64,
}

/// A uniform contribution with a fixed, unused direction.
#[derive(Clone, Copy, Debug)]
pub struct AmbientLight {
    pub color: Vector3D,
    pub intensity: i64,
}

impl Default for DirectionalLight {
    /// A zero-direction, zero-colour light at full intensity.
    fn default() -> (r: DirectionalLight)
        ensures
            r == (DirectionalLight {
                direction: Vector3D { x: 0, y: 0, z: 0 },
                color: Vector3D { x: 0, y: 0, z: 0 },
                intensity: SCALE,
            }),
    {
        DirectionalLight {
            direction: Vector3D { x: 0, y: 0, z: 0 },
            color: Vector3D { x: 0, y: 0, z: 0 },
            intensity: SCALE,
        }
    }
}

impl DirectionalLight {
    /// Build a directional light.
    pub fn new(direction: Vector3D, color: Vector3D, intensity: i64) -> (r: DirectionalLight)
        ensures
            r == (DirectionalLight { direction, color, intensity }),
    {
        DirectionalLight { direction, color, intensity }
    }

    /// The stored direction, as-is.
    pub fn get_direction(&self) -> (r: Vector3D)
        ensures
            r == self.direction,
    {
        self.direction
    }

    /// The light's colour.
    pub fn get_color(&self) -> (r: Vector3D)
        ensures
            r == self.color,
    {
        self.color
    }

    /// The light's intensity.
    pub fn get_intensity(&self) -> (r: i64)
        ensures
            r == self.intensity,
    {
        self.intensity
    }
}

impl PointLight {
    /// Build a point light.
    pub fn new(position: Point3D, color: Vector3D, intensity: i64) -> (r: PointLight)
        ensures
            r == (PointLight { position, color, intensity }),
    {
        PointLight { position, color, intensity }
    }

    /// The normalized vector from the world origin to the light's position.
    pub fn get_direction(&self) -> (r: Vector3D)
        ensures
            r == point_light_direction(*self),
    {
        self.position.sub(Point3D { x: 0, y: 0, z: 0 }).normalize()
    }

    /// The light's colour.
    pub fn get_color(&self) -> (r: Vector3D)
        ensures
            r == self.color,
    {
        self.color
    }

    /// The light's intensity.
    pub fn get_intensity(&self) -> (r: i64)
        ensures
            r == self.intensity,
    {
        self.intensity
    }
}

/// The direction a point light hands to shading: from the world origin to
/// its position, normalized.
pub open spec fn point_light_direction(l: PointLight) -> Vector3D {
    v_normalize(p_sub(l.position, Point3D { x: 0, y: 0, z: 0 }))
}

impl AmbientLight {
    /// Build an ambient light.
    pub fn new(color: Vector3D, intensity: i64) -> (r: AmbientLight)
        ensures
            r == (AmbientLight { color, intensity }),
    {
        AmbientLight { color, intensity }
    }

    /// A fixed, arbitrary direction.
    pub fn get_direction(&self) -> (r: Vector3D)
        ensures
            r == (Vector3D { x: 0, y: 0, z: SCALE }),
    {
        Vector3D { x: 0, y: 0, z: SCALE }
    }

    /// The light's colour.
    pub fn get_color(&self) -> (r: Vector3D)
        ensures
            r == self.color,
    {
        self.color
    }

    /// The light's intensity.
    pub fn get_intensity(&self) -> (r: i64)
        ensures
            r == self.intensity,
    {
        self.intensity
    }
}

/// A light source of the scene: the closed set of kinds the renderer knows.
#[derive(Clone, Copy, Debug)]
pub enum Light {
    Directional(DirectionalLight),
    Point(PointLight),
    Ambient(AmbientLight),
}

/// The direction a light hands to shading.
pub open spec fn light_direction(l: Light) -> Vector3D {
    match l {
        Light::Directional(d) => d.direction,
        Light::Point(p) => point_light_direction(p),
        Light::Ambient(_) => Vector3D { x: 0, y: 0, z: SCALE },
    }
}

/// A light's colour.
pub open spec fn light_color(l: Light) -> Vector3D {
    match l {
        Light::Directional(d) => d.color,
        Light::Point(p) => p.color,
        Light::Ambient(a) => a.color,
    }
}

/// A light's intensity.
pub open spec fn light_intensity(l: Light) -> int {
    match l {
        Light::Directional(d) => d.intensity as int,
        Light::Point(p) => p.intensity as int,
        Light::Ambient(a) => a.intensity as int,
    }
}

impl Light {
    /// The direction this light hands to shading.
    pub fn get_direction(&self) -> (r: Vector3D)
        ensures
            r == light_direction(*self),
    {
        match self {
            Light::Directional(d) => d.get_direction(),
            Light::Point(p) => p.get_direction(),
            Light::Ambient(a) => a.get_direction(),
        }
    }

    /// The light's colour.
    pub fn get_color(&self) -> (r: Vector3D)
        ensures
            r == light_color(*self),
    {
        match self {
            Light::Directional(d) => d.get_color(),
            Light::Point(p) => p.get_color(),
            Light::Ambient(a) => a.get_color(),
        }
    }

    /// The light's intensity.
    pub fn get_intensity(&self) -> (r: i64)
        ensures
            r as int == light_intensity(*self),
    {
        match self {
            Light::Directional(d) => d.get_intensity(),
            Light::Point(p) => p.get_intensity(),
            Light::Ambient(a) => a.get_intensity(),
        }
    }
}

} // verus!
