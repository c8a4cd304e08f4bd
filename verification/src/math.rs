//! 3D vector and point algebra over fixed-point scalars.
//!
//! `Vector3D` is a free direction or displacement, `Point3D` a position.
//! Every executable operation is specified exactly by a spec-level model
//! function over the fixed-point model of [`crate::fx`].

use vstd::prelude::*;
use vstd::math::abs;
use crate::fx::{fx_add, fx_sub, fx_mul, fx_div, fx_sqrt, tdiv, SCALE};
use crate::fx::{add_fx, sub_fx, mul_fx, div_fx, sqrt_fx};

verus! {

/// A 3D direction or displacement in fixed-point coordinates.
#[derive(Clone, Copy, Debug, PartialEq, Eq, Structural)]
pub struct Vector3D {
    pub x: i64,
    pub y: i64,
    pub z: i64,
}

/// A 3D position in fixed-point coordinates.
#[derive(Clone, Copy, Debug, PartialEq, Eq, Structural)]
pub struct Point3D {
    pub x: i64,
    pub y: i64,
    pub z: i64,
}

/// Componentwise vector sum.
pub open spec fn v_add(a: Vector3D, b: Vector3D) -> Vector3D {
    Vector3D {
        x: fx_add(a.x as int, b.x as int) as i64,
        y: fx_add(a.y as int, b.y as int) as i64,
        z: fx_add(a.z as int, b.z as int) as i64,
    }
}

/// Componentwise vector difference.
pub open spec fn v_sub(a: Vector3D, b: Vector3D) -> Vector3D {
    Vector3D {
        x: fx_sub(a.x as int, b.x as int) as i64,
        y: fx_sub(a.y as int, b.y as int) as i64,
        z: fx_sub(a.z as int, b.z as int) as i64,
    }
}

/// Componentwise vector product.
pub open spec fn v_mul(a: Vector3D, b: Vector3D) -> Vector3D {
    Vector3D {
        x: fx_mul(a.x as int, b.x as int) as i64,
        y: fx_mul(a.y as int, b.y as int) as i64,
        z: fx_mul(a.z as int, b.z as int) as i64,
    }
}

/// Componentwise vector quotient.
pub open spec fn v_div(a: Vector3D, b: Vector3D) -> Vector3D {
    Vector3D {
        x: fx_div(a.x as int, b.x as int) as i64,
        y: fx_div(a.y as int, b.y as int) as i64,
        z: fx_div(a.z as int, b.z as int) as i64,
    }
}

/// A vector scaled by a fixed-point scalar.
pub open spec fn v_scale(a: Vector3D, s: int) -> Vector3D {
    Vector3D {
        x: fx_mul(a.x as int, s) as i64,
        y: fx_mul(a.y as int, s) as i64,
        z: fx_mul(a.z as int, s) as i64,
    }
}

/// The dot product, accumulated left to right.
pub open spec fn v_dot(a: Vector3D, b: Vector3D) -> int {
    fx_add(
        fx_add(fx_mul(a.x as int, b.x as int), fx_mul(a.y as int, b.y as int)),
        fx_mul(a.z as int, b.z as int),
    )
}

/// The Euclidean length: the square root of the vector's dot with itself.
pub open spec fn v_length(a: Vector3D) -> int {
    fx_sqrt(v_dot(a, a))
}

/// The cross product.
pub open spec fn v_cross(a: Vector3D, b: Vector3D) -> Vector3D {
    Vector3D {
        x: fx_sub(fx_mul(a.y as int, b.z as int), fx_mul(a.z as int, b.y as int)) as i64,
        y: fx_sub(fx_mul(a.z as int, b.x as int), fx_mul(a.x as int, b.z as int)) as i64,
        z: fx_sub(fx_mul(a.x as int, b.y as int), fx_mul(a.y as int, b.x as int)) as i64,
    }
}

/// The vector divided by its own length, componentwise.
/// A zero-length vector maps to the zero vector (division by zero yields 0).
pub open spec fn v_normalize(a: Vector3D) -> Vector3D {
    let len = v_length(a);
    Vector3D {
        x: fx_div(a.x as int, len) as i64,
        y: fx_div(a.y as int, len) as i64,
        z: fx_div(a.z as int, len) as i64,
    }
}

/// One 8-bit colour channel read from a fixed-point scalar: the integer part,
/// saturated to `0..=255` as a float-to-`u8` cast would be.
pub open spec fn to_channel(a: int) -> int {
    let w = tdiv(a, SCALE as int);
    if w < 0 {
        0
    } else if w > 255 {
        255
    } else {
        w
    }
}

/// The three channels of a colour vector.
pub open spec fn v_color(a: Vector3D) -> (u8, u8, u8) {
    (to_channel(a.x as int) as u8, to_channel(a.y as int) as u8, to_channel(a.z as int) as u8)
}

impl Vector3D {
    /// Build a vector from its fixed-point components.
    pub fn new(x: i64, y: i64, z: i64) -> (r: Vector3D)
        ensures
            r == (Vector3D { x, y, z }),
    {
        Vector3D { x, y, z }
    }

    /// A copy of another vector.
    pub fn from(other: &Vector3D) -> (r: Vector3D)
        ensures
            r == *other,
    {
        *other
    }

    /// The Euclidean length.
    pub fn length(&self) -> (r: i64)
        ensures
            r as int == v_length(*self),
    {
        sqrt_fx(self.dot(self))
    }

    /// The dot product with another vector.
    pub fn dot(&self, other: &Vector3D) -> (r: i64)
        ensures
            r as int == v_dot(*self, *other),
    {
        add_fx(
            add_fx(mul_fx(self.x, other.x), mul_fx(self.y, other.y)),
            mul_fx(self.z, other.z),
        )
    }

    /// The vector read as an 8-bit RGB colour.
    pub fn get_color(&self) -> (r: (u8, u8, u8))
        ensures
            r == v_color(*self),
    {
        (channel(self.x), channel(self.y), channel(self.z))
    }

    /// The unit vector with this vector's direction; the zero vector stays zero.
    pub fn normalize(&self) -> (r: Vector3D)
        ensures
            r == v_normalize(*self),
    {
        let len: i64 = self.length();
        Vector3D { x: div_fx(self.x, len), y: div_fx(self.y, len), z: div_fx(self.z, len) }
    }

    /// The vector scaled by a fixed-point scalar.
    pub fn scale(&self, s: i64) -> (r: Vector3D)
        ensures
            r == v_scale(*self, s as int),
    {
        Vector3D { x: mul_fx(self.x, s), y: mul_fx(self.y, s), z: mul_fx(self.z, s) }
    }

    /// The cross product with another vector.
    pub fn cross(self, other: Vector3D) -> (r: Vector3D)
        ensures
            r == v_cross(self, other),
    {
        Vector3D {
            x: sub_fx(mul_fx(self.y, other.z), mul_fx(self.z, other.y)),
            y: sub_fx(mul_fx(self.z, other.x), mul_fx(self.x, other.z)),
            z: sub_fx(mul_fx(self.x, other.y), mul_fx(self.y, other.x)),
        }
    }

    /// Componentwise sum.
    pub fn add(self, other: Vector3D) -> (r: Vector3D)
        ensures
            r == v_add(self, other),
    {
        Vector3D {
            x: add_fx(self.x, other.x),
            y: add_fx(self.y, other.y),
            z: add_fx(self.z, other.z),
        }
    }

    /// Componentwise difference.
    pub fn sub(self, other: Vector3D) -> (r: Vector3D)
        ensures
            r == v_sub(self, other),
    {
        Vector3D {
            x: sub_fx(self.x, other.x),
            y: sub_fx(self.y, other.y),
            z: sub_fx(self.z, other.z),
        }
    }

    /// Componentwise product.
    pub fn mul(self, other: Vector3D) -> (r: Vector3D)
        ensures
            r == v_mul(self, other),
    {
        Vector3D {
            x: mul_fx(self.x, other.x),
            y: mul_fx(self.y, other.y),
            z: mul_fx(self.z, other.z),
        }
    }

    /// Componentwise quotient.
    pub fn div(self, other: Vector3D) -> (r: Vector3D)
        ensures
            r == v_div(self, other),
    {
        Vector3D {
            x: div_fx(self.x, other.x),
            y: div_fx(self.y, other.y),
            z: div_fx(self.z, other.z),
        }
    }
}

/// A vector along a single coordinate axis, of magnitude at least one unit
/// and below the range where products saturate, normalizes to a vector of
/// exactly unit length; `lemma_normalize_unit_tolerance` bounds the error
/// for general vectors.
pub proof fn lemma_normalize_axis_unit(v: Vector3D)
    requires
        v.y == 0,
        v.z == 0,
        (SCALE as int) <= (v.x as int),
        (v.x as int) < 0x80_0000_0000,
    ensures
        v_length(v_normalize(v)) == SCALE as int,
{
    let s = SCALE as int;
    let x = v.x as int;

    // The squared magnitude, free of saturation.
    assert(0 <= x * x < 0x4000_0000_0000_0000_0000int) by (nonlinear_arith)
        requires 0 < x < 0x80_0000_0000;
    crate::fx::lemma_tdiv_nonneg(x * x, s);
    vstd::arithmetic::div_mod::lemma_fundamental_div_mod(x * x, s);
    let q = (x * x) / s;
    let m = (x * x) % s;
    assert(fx_mul(x, x) == q);
    assert(fx_mul(0, 0) == 0) by {
        crate::fx::lemma_tdiv_nonneg(0, s);
        vstd::arithmetic::div_mod::lemma_div_of0(s);
    }
    assert(v_dot(v, v) == q);

    // The length is the integer square root of x*x - m.
    assert(s * s <= x * x) by (nonlinear_arith)
        requires 0 < s <= x;
    vstd::arithmetic::div_mod::lemma_div_is_ordered(s * s, x * x, s);
    vstd::arithmetic::div_mod::lemma_div_multiples_vanish(s, s);
    assert(q >= s > 0);
    assert(q * s == x * x - m) by (nonlinear_arith)
        requires x * x == s * q + m;
    let len = v_length(v);
    assert(len == crate::fx::isqrt((q * s) as nat));

    if m == 0 {
        assert(x * x <= q * s < (x + 1) * (x + 1)) by (nonlinear_arith)
            requires q * s == x * x - m, m == 0, x > 0;
        crate::fx::lemma_isqrt_unique((q * s) as nat, x as nat);
        assert(len == x);
        // normalize: x / len == 1.0 exactly
        vstd::arithmetic::div_mod::lemma_div_multiples_vanish(s, x);
        assert(x * s == s * x) by (nonlinear_arith);
        crate::fx::lemma_tdiv_nonneg(x * s, x);
        assert(fx_div(x, len) == s);
    } else {
        assert((x - 1) * (x - 1) <= q * s < x * x) by (nonlinear_arith)
            requires q * s == x * x - m, 0 < m < s, s <= x, s >= 2;
        crate::fx::lemma_isqrt_unique((q * s) as nat, (x - 1) as nat);
        assert(len == x - 1);
        // m > 0 rules out x == s, whose square is a multiple of the scale.
        if x == s {
            vstd::arithmetic::div_mod::lemma_mod_multiples_basic(s, s);
        }
        assert(x - 1 >= s);
        // x*s / (x-1) == s + s/(x-1)
        vstd::arithmetic::div_mod::lemma_fundamental_div_mod(s, x - 1);
        let c = s / (x - 1);
        let r2 = s % (x - 1);
        assert(x * s == (x - 1) * (s + c) + r2) by (nonlinear_arith)
            requires s == (x - 1) * c + r2;
        vstd::arithmetic::div_mod::lemma_fundamental_div_mod_converse(x * s, x - 1, s + c, r2);
        crate::fx::lemma_tdiv_nonneg(x * s, x - 1);
        if x - 1 > s {
            vstd::arithmetic::div_mod::lemma_basic_div(s, x - 1);
            assert(c == 0);
            assert(fx_div(x, len) == s);
        } else {
            assert(x - 1 == s);
            vstd::arithmetic::div_mod::lemma_div_by_self(s);
            assert(c == 1);
            assert(fx_div(x, len) == s + 1);
        }
    }

    // Either way the normalized x component is 1.0 or one step above it,
    // and the other components are zero; both square back to unit length.
    assert(fx_div(0, len) == 0) by {
        if len != 0 {
            crate::fx::lemma_tdiv_nonneg(0, len);
            vstd::arithmetic::div_mod::lemma_div_of0(len);
        }
    }
    let n = v_normalize(v);
    assert(n.y == 0 && n.z == 0);
    assert(n.x as int == s || n.x as int == s + 1);
    crate::fx::lemma_tdiv_nonneg((n.x as int) * (n.x as int), s);
    if n.x as int == s {
        assert(fx_mul(s, s) == s) by {
            vstd::arithmetic::div_mod::lemma_div_multiples_vanish(s, s);
        }
        assert(v_dot(n, n) == s);
        crate::fx::lemma_isqrt_unique((s * s) as nat, s as nat);
        assert(v_length(n) == s);
    } else {
        assert(((s + 1) * (s + 1)) / s == s + 2) by {
            assert((s + 1) * (s + 1) == s * (s + 2) + 1) by (nonlinear_arith);
            vstd::arithmetic::div_mod::lemma_fundamental_div_mod_converse(
                (s + 1) * (s + 1), s, s + 2, 1,
            );
        }
        assert(v_dot(n, n) == s + 2);
        assert(s * s <= (s + 2) * s < (s + 1) * (s + 1)) by (nonlinear_arith)
            requires s >= 2;
        crate::fx::lemma_isqrt_unique(((s + 2) * s) as nat, s as nat);
        assert(v_length(n) == s);
    }
}

impl Default for Vector3D {
    /// The zero vector.
    fn default() -> (r: Vector3D)
        ensures
            r == (Vector3D { x: 0, y: 0, z: 0 }),
    {
        Vector3D { x: 0, y: 0, z: 0 }
    }
}

impl Default for Point3D {
    /// The origin.
    fn default() -> (r: Point3D)
        ensures
            r == (Point3D { x: 0, y: 0, z: 0 }),
    {
        Point3D { x: 0, y: 0, z: 0 }
    }
}

/// One component of a vector divided by a positive length: the signed
/// truncated quotient, with its magnitude, square, and division bracketing.
proof fn lemma_component_quotient(a: int, m: int, el: int)
    requires
        m == a || m == -a,
        m >= 0,
        m < 0x40_0000_0000,
        el >= SCALE as int,
    ensures
        fx_div(a, el) * fx_div(a, el) == ((m * SCALE as int) / el) * ((m * SCALE as int) / el),
        0 <= (m * SCALE as int) / el <= m,
        el * ((m * SCALE as int) / el) <= m * SCALE as int,
        (m * SCALE as int) < el * ((m * SCALE as int) / el) + el,
{
    let s = SCALE as int;
    let u = (m * s) / el;
    vstd::arithmetic::div_mod::lemma_fundamental_div_mod(m * s, el);
    assert(m * s >= 0) by (nonlinear_arith)
        requires m >= 0, s > 0;
    assert(u >= 0 && el * u <= m * s && m * s < el * u + el);
    assert(m * s <= m * el) by (nonlinear_arith)
        requires m >= 0, s <= el;
    assert(u <= m) by (nonlinear_arith)
        requires el * u <= m * el, el > 0;
    crate::fx::lemma_tdiv_nonneg(m * s, el);
    if a >= 0 {
        assert(fx_div(a, el) == u);
    } else {
        assert(a * s == -(m * s));
        assert(abs(a * s) == m * s);
        assert(tdiv(a * s, el) == -u);
        assert(fx_div(a, el) == -u);
        assert((-u) * (-u) == u * u) by (nonlinear_arith);
    }
}

/// Sums of three squares dominate the square of the sum of magnitudes.
proof fn lemma_sum_of_squares(m1: int, m2: int, m3: int)
    by (nonlinear_arith)
    ensures
        (m1 + m2 + m3) * (m1 + m2 + m3) <= 3 * (m1 * m1 + m2 * m2 + m3 * m3),
{
}

/// Normalizing any vector of length at least one unit, with components below
/// the range where fixed-point products saturate, yields a vector whose
/// length is one unit to within a few raw steps of the scale. The tolerance
/// of the law `|normalize(v)| == 1` grows as the vector's magnitude falls
/// below one unit, so shorter vectors are left out.
pub proof fn lemma_normalize_unit_tolerance(v: Vector3D)
    requires
        abs(v.x as int) < 0x40_0000_0000,
        abs(v.y as int) < 0x40_0000_0000,
        abs(v.z as int) < 0x40_0000_0000,
        v_length(v) >= SCALE as int,
    ensures
        SCALE - 4 <= v_length(v_normalize(v)) <= SCALE + 2,
{
    let s = SCALE as int;
    let x = v.x as int;
    let y = v.y as int;
    let z = v.z as int;
    let m1 = abs(x) as int;
    let m2 = abs(y) as int;
    let m3 = abs(z) as int;
    assert((m1 == x || m1 == -x) && m1 >= 0);
    assert((m2 == y || m2 == -y) && m2 >= 0);
    assert((m3 == z || m3 == -z) && m3 >= 0);
    assert(m1 * m1 == x * x && m1 * m1 < 0x1000_0000_0000_0000_0000int) by (nonlinear_arith)
        requires (m1 == x || m1 == -x) && 0 <= m1 < 0x40_0000_0000;
    assert(m2 * m2 == y * y && m2 * m2 < 0x1000_0000_0000_0000_0000int) by (nonlinear_arith)
        requires (m2 == y || m2 == -y) && 0 <= m2 < 0x40_0000_0000;
    assert(m3 * m3 == z * z && m3 * m3 < 0x1000_0000_0000_0000_0000int) by (nonlinear_arith)
        requires (m3 == z || m3 == -z) && 0 <= m3 < 0x40_0000_0000;
    let sig = m1 * m1 + m2 * m2 + m3 * m3;

    // the fixed-point squared length: the Euclidean quotient of the true one
    crate::fx::lemma_tdiv_nonneg(x * x, s);
    crate::fx::lemma_tdiv_nonneg(y * y, s);
    crate::fx::lemma_tdiv_nonneg(z * z, s);
    vstd::arithmetic::div_mod::lemma_fundamental_div_mod(x * x, s);
    vstd::arithmetic::div_mod::lemma_fundamental_div_mod(y * y, s);
    vstd::arithmetic::div_mod::lemma_fundamental_div_mod(z * z, s);
    let qq = (x * x) / s + (y * y) / s + (z * z) / s;
    assert(v_dot(v, v) == qq);
    assert(s * qq <= sig < s * qq + 3 * s);

    // the length brackets the scaled squared length
    let el = v_length(v);
    assert(qq > 0);
    assert(el as nat == crate::fx::isqrt((qq * s) as nat));
    crate::fx::lemma_isqrt((qq * s) as nat);
    assert(el * el <= qq * s < (el + 1) * (el + 1));
    assert(qq * s <= sig) by (nonlinear_arith)
        requires s * qq <= sig, qq * s == s * qq;
    assert(el * el <= sig);
    assert(sig < (el + 1) * (el + 1) + 3 * s) by (nonlinear_arith)
        requires sig < s * qq + 3 * s, qq * s < (el + 1) * (el + 1), qq * s == s * qq;
    assert(sig <= el * el + 2 * el + 3 * s) by (nonlinear_arith)
        requires sig < (el + 1) * (el + 1) + 3 * s;

    // the normalized components: signed truncated quotients by the length
    lemma_component_quotient(x, m1, el);
    lemma_component_quotient(y, m2, el);
    lemma_component_quotient(z, m3, el);
    let u1 = (m1 * s) / el;
    let u2 = (m2 * s) / el;
    let u3 = (m3 * s) / el;
    let n = v_normalize(v);
    assert(n.x as int == fx_div(x, el) && n.y as int == fx_div(y, el) && n.z as int == fx_div(
        z,
        el,
    ));
    assert((n.x as int) * (n.x as int) == u1 * u1);
    assert((n.y as int) * (n.y as int) == u2 * u2);
    assert((n.z as int) * (n.z as int) == u3 * u3);

    // the squared normalized length, again by Euclidean quotients
    assert(u1 * u1 >= 0 && u1 * u1 < 0x1000_0000_0000_0000_0000int) by (nonlinear_arith)
        requires 0 <= u1 <= m1 < 0x40_0000_0000;
    assert(u2 * u2 >= 0 && u2 * u2 < 0x1000_0000_0000_0000_0000int) by (nonlinear_arith)
        requires 0 <= u2 <= m2 < 0x40_0000_0000;
    assert(u3 * u3 >= 0 && u3 * u3 < 0x1000_0000_0000_0000_0000int) by (nonlinear_arith)
        requires 0 <= u3 <= m3 < 0x40_0000_0000;
    crate::fx::lemma_tdiv_nonneg(u1 * u1, s);
    crate::fx::lemma_tdiv_nonneg(u2 * u2, s);
    crate::fx::lemma_tdiv_nonneg(u3 * u3, s);
    vstd::arithmetic::div_mod::lemma_fundamental_div_mod(u1 * u1, s);
    vstd::arithmetic::div_mod::lemma_fundamental_div_mod(u2 * u2, s);
    vstd::arithmetic::div_mod::lemma_fundamental_div_mod(u3 * u3, s);
    let usum = u1 * u1 + u2 * u2 + u3 * u3;
    let t = (u1 * u1) / s + (u2 * u2) / s + (u3 * u3) / s;
    assert(v_dot(n, n) == t);
    assert(s * t <= usum < s * t + 3 * s);

    // upper bound: the squared quotients cannot overshoot the scale by much
    assert(el * el * (u1 * u1) <= (m1 * m1) * (s * s)) by (nonlinear_arith)
        requires 0 <= el * u1 <= m1 * s;
    assert(el * el * (u2 * u2) <= (m2 * m2) * (s * s)) by (nonlinear_arith)
        requires 0 <= el * u2 <= m2 * s;
    assert(el * el * (u3 * u3) <= (m3 * m3) * (s * s)) by (nonlinear_arith)
        requires 0 <= el * u3 <= m3 * s;
    assert(el * el * usum <= sig * (s * s)) by (nonlinear_arith)
        requires
            el * el * (u1 * u1) <= (m1 * m1) * (s * s),
            el * el * (u2 * u2) <= (m2 * m2) * (s * s),
            el * el * (u3 * u3) <= (m3 * m3) * (s * s),
            usum == u1 * u1 + u2 * u2 + u3 * u3,
            sig == m1 * m1 + m2 * m2 + m3 * m3;
    assert(usum <= s * s + 5 * s) by (nonlinear_arith)
        requires
            el * el * usum <= sig * (s * s),
            sig <= el * el + 2 * el + 3 * s,
            s == 65536,
            el >= s;
    assert(t <= s + 5);

    // lower bound: the truncations cannot undershoot the scale by much
    assert((m1 * s) * (m1 * s) < el * el * (u1 * u1) + el * el * (2 * u1 + 1))
        by (nonlinear_arith)
        requires 0 <= m1 * s, m1 * s < el * u1 + el, el > 0, u1 >= 0;
    assert((m2 * s) * (m2 * s) < el * el * (u2 * u2) + el * el * (2 * u2 + 1))
        by (nonlinear_arith)
        requires 0 <= m2 * s, m2 * s < el * u2 + el, el > 0, u2 >= 0;
    assert((m3 * s) * (m3 * s) < el * el * (u3 * u3) + el * el * (2 * u3 + 1))
        by (nonlinear_arith)
        requires 0 <= m3 * s, m3 * s < el * u3 + el, el > 0, u3 >= 0;
    lemma_sum_of_squares(m1, m2, m3);
    assert(sig <= (el + 3) * (el + 3)) by (nonlinear_arith)
        requires sig <= el * el + 2 * el + 3 * s, s <= el, s == 65536;
    assert(m1 + m2 + m3 <= 2 * el + 5) by (nonlinear_arith)
        requires
            (m1 + m2 + m3) * (m1 + m2 + m3) <= 3 * sig,
            sig <= (el + 3) * (el + 3),
            m1 >= 0,
            m2 >= 0,
            m3 >= 0,
            el >= 65536;
    assert(el * (u1 + u2 + u3) <= s * (m1 + m2 + m3)) by (nonlinear_arith)
        requires
            el * u1 <= m1 * s,
            el * u2 <= m2 * s,
            el * u3 <= m3 * s;
    assert(u1 + u2 + u3 <= 2 * s + 5) by (nonlinear_arith)
        requires
            el * (u1 + u2 + u3) <= s * (m1 + m2 + m3),
            m1 + m2 + m3 <= 2 * el + 5,
            s <= el,
            s > 0;
    assert((m1 * s) * (m1 * s) == (m1 * m1) * (s * s)) by (nonlinear_arith);
    assert((m2 * s) * (m2 * s) == (m2 * m2) * (s * s)) by (nonlinear_arith);
    assert((m3 * s) * (m3 * s) == (m3 * m3) * (s * s)) by (nonlinear_arith);
    let e2 = el * el;
    let uu = u1 + u2 + u3;
    assert(e2 * usum == e2 * (u1 * u1) + e2 * (u2 * u2) + e2 * (u3 * u3)) by (nonlinear_arith)
        requires usum == u1 * u1 + u2 * u2 + u3 * u3;
    assert(e2 * (2 * uu + 3) == e2 * (2 * u1 + 1) + e2 * (2 * u2 + 1) + e2 * (2 * u3 + 1))
        by (nonlinear_arith)
        requires uu == u1 + u2 + u3;
    assert(sig * (s * s) == (m1 * m1) * (s * s) + (m2 * m2) * (s * s) + (m3 * m3) * (s * s))
        by (nonlinear_arith)
        requires sig == m1 * m1 + m2 * m2 + m3 * m3;
    assert(sig * (s * s) < e2 * usum + e2 * (2 * uu + 3));
    assert(usum > s * s - 4 * s - 13) by (nonlinear_arith)
        requires
            sig * (s * s) < e2 * usum + e2 * (2 * uu + 3),
            e2 == el * el,
            uu <= 2 * s + 5,
            el * el <= sig,
            el > 0,
            s == 65536;
    assert(t >= s - 7);

    // both bounds carry through the square root
    assert(v_length(n) == fx_sqrt(t));
    let el2 = v_length(n);
    assert(el2 as nat == crate::fx::isqrt((t * s) as nat));
    crate::fx::lemma_isqrt((t * s) as nat);
    assert(el2 * el2 <= t * s < (el2 + 1) * (el2 + 1));
    assert(el2 <= s + 2) by (nonlinear_arith)
        requires
            el2 * el2 <= t * s,
            t <= s + 5,
            el2 >= 0,
            s == 65536;
    assert(el2 >= s - 4) by (nonlinear_arith)
        requires
            t * s < (el2 + 1) * (el2 + 1),
            t >= s - 7,
            el2 >= 0,
            s == 65536;
}

/// One colour channel of a fixed-point scalar.
fn channel(a: i64) -> (r: u8)
    ensures
        r as int == to_channel(a as int),
{
    let w: i64 = crate::fx::trunc_div64(a, SCALE);
    if w < 0 {
        0
    } else if w > 255 {
        255
    } else {
        w as u8
    }
}

impl Point3D {
    /// Build a point from its fixed-point coordinates.
    pub fn new(x: i64, y: i64, z: i64) -> (r: Point3D)
        ensures
            r == (Point3D { x, y, z }),
    {
        Point3D { x, y, z }
    }

    /// A copy of another point.
    pub fn from(other: &Point3D) -> (r: Point3D)
        ensures
            r == *other,
    {
        *other
    }

    /// The point displaced by a vector.
    pub fn add(self, other: Vector3D) -> (r: Point3D)
        ensures
            r == p_add(self, other),
    {
        Point3D {
            x: add_fx(self.x, other.x),
            y: add_fx(self.y, other.y),
            z: add_fx(self.z, other.z),
        }
    }

    /// The displacement from another point to this one.
    pub fn sub(self, other: Point3D) -> (r: Vector3D)
        ensures
            r == p_sub(self, other),
    {
        Vector3D {
            x: sub_fx(self.x, other.x),
            y: sub_fx(self.y, other.y),
            z: sub_fx(self.z, other.z),
        }
    }

    /// The componentwise product of two points.
    pub fn mul(self, other: Point3D) -> (r: Point3D)
        ensures
            r == p_mul(self, other),
    {
        Point3D {
            x: mul_fx(self.x, other.x),
            y: mul_fx(self.y, other.y),
            z: mul_fx(self.z, other.z),
        }
    }

    /// The componentwise quotient of two points.
    pub fn div(self, other: Point3D) -> (r: Point3D)
        ensures
            r == p_div(self, other),
    {
        Point3D {
            x: div_fx(self.x, other.x),
            y: div_fx(self.y, other.y),
            z: div_fx(self.z, other.z),
        }
    }
}

/// The componentwise product of two points.
pub open spec fn p_mul(a: Point3D, b: Point3D) -> Point3D {
    Point3D {
        x: fx_mul(a.x as int, b.x as int) as i64,
        y: fx_mul(a.y as int, b.y as int) as i64,
        z: fx_mul(a.z as int, b.z as int) as i64,
    }
}

/// The componentwise quotient of two points.
pub open spec fn p_div(a: Point3D, b: Point3D) -> Point3D {
    Point3D {
        x: fx_div(a.x as int, b.x as int) as i64,
        y: fx_div(a.y as int, b.y as int) as i64,
        z: fx_div(a.z as int, b.z as int) as i64,
    }
}

/// A point displaced by a vector.
pub open spec fn p_add(a: Point3D, b: Vector3D) -> Point3D {
    Point3D {
        x: fx_add(a.x as int, b.x as int) as i64,
        y: fx_add(a.y as int, b.y as int) as i64,
        z: fx_add(a.z as int, b.z as int) as i64,
    }
}

/// The displacement between two points.
pub open spec fn p_sub(a: Point3D, b: Point3D) -> Vector3D {
    Vector3D {
        x: fx_sub(a.x as int, b.x as int) as i64,
        y: fx_sub(a.y as int, b.y as int) as i64,
        z: fx_sub(a.z as int, b.z as int) as i64,
    }
}

} // verus!
