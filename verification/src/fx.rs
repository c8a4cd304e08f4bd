//! Signed fixed-point scalars: an `i64` raw value with `SCALE` units per 1.0.
//!
//! The model is total: addition, subtraction and multiplication saturate at
//! the `i64` range, division truncates toward zero, division by zero yields 0,
//! and the square root of a negative value yields 0. Degenerate geometry
//! therefore produces wrong-but-defined pixel values instead of a crash.

use vstd::prelude::*;
use vstd::math::abs;

verus! {

/// Raw units per 1.0: the scalars carry 16 fractional bits.
pub const SCALE: i64 = 65536;

/// The scalar 2.0.
pub const FX_TWO: i64 = 2 * SCALE;

/// The scalar 4.0.
pub const FX_FOUR: i64 = 4 * SCALE;

/// The scalar 0.5.
pub const FX_HALF: i64 = 32768;

/// The scalar -1.0.
pub const FX_NEG_ONE: i64 = -SCALE;

/// The scalar 255.0, the top of an 8-bit colour channel.
pub const FX_255: i64 = 255 * SCALE;

/// The constant 4 * pi, truncated to fixed point.
pub const FX_FOUR_PI: i64 = 823549;

/// The self-intersection guard 0.001, truncated to fixed point.
pub const FX_SHADOW_EPS: i64 = 65;

/// Clamp an unbounded integer into the `i64` range.
pub open spec fn clamp64(x: int) -> int {
    if x < i64::MIN as int {
        i64::MIN as int
    } else if x > i64::MAX as int {
        i64::MAX as int
    } else {
        x
    }
}

/// Quotient truncated toward zero, with division by zero defined as 0.
pub open spec fn tdiv(a: int, b: int) -> int {
    if b == 0 {
        0
    } else if (a >= 0) == (b >= 0) {
        (abs(a) / abs(b)) as int
    } else {
        -((abs(a) / abs(b)) as int)
    }
}

/// Saturating fixed-point addition.
pub open spec fn fx_add(a: int, b: int) -> int {
    clamp64(a + b)
}

/// Saturating fixed-point subtraction.
pub open spec fn fx_sub(a: int, b: int) -> int {
    clamp64(a - b)
}

/// Saturating fixed-point negation.
pub open spec fn fx_neg(a: int) -> int {
    clamp64(-a)
}

/// Saturating fixed-point product: the exact product rescaled by `SCALE`,
/// truncated toward zero.
pub open spec fn fx_mul(a: int, b: int) -> int {
    clamp64(tdiv(a * b, SCALE as int))
}

/// Saturating fixed-point quotient, truncated toward zero; 0 when `b == 0`.
pub open spec fn fx_div(a: int, b: int) -> int {
    if b == 0 {
        0
    } else {
        clamp64(tdiv(a * SCALE as int, b))
    }
}

/// The integer square root: the greatest `r` with `r * r <= n`.
pub open spec fn isqrt(n: nat) -> nat
    decreases n,
{
    if n == 0 {
        0
    } else {
        let r = isqrt((n - 1) as nat);
        if (r + 1) * (r + 1) <= n {
            r + 1
        } else {
            r
        }
    }
}

/// Fixed-point square root: `isqrt` of the raw value rescaled so that the
/// result is again a fixed-point scalar; 0 for non-positive inputs.
pub open spec fn fx_sqrt(a: int) -> int {
    if a <= 0 {
        0
    } else {
        isqrt((a * SCALE as int) as nat) as int
    }
}

/// `isqrt(n)` is bracketed by the two neighbouring squares.
pub proof fn lemma_isqrt(n: nat)
    ensures
        isqrt(n) * isqrt(n) <= n,
        n < (isqrt(n) + 1) * (isqrt(n) + 1),
    decreases n,
{
    if n == 0 {
        let s = isqrt(n);
        assert(s == 0);
        assert(n < (s + 1) * (s + 1)) by (nonlinear_arith)
            requires n == 0nat, s == 0nat;
    } else {
        lemma_isqrt((n - 1) as nat);
        let r = isqrt((n - 1) as nat);
        if (r + 1) * (r + 1) <= n {
            assert(isqrt(n) == r + 1);
            assert(n <= (r + 1) * (r + 1));
            assert((r + 1) * (r + 1) < ((r + 1) + 1) * ((r + 1) + 1)) by (nonlinear_arith);
            assert(n < (isqrt(n) + 1) * (isqrt(n) + 1));
        } else {
            assert(isqrt(n) == r);
            assert(r * r <= n - 1);
            assert(n < (r + 1) * (r + 1));
            assert(n < (isqrt(n) + 1) * (isqrt(n) + 1));
        }
    }
}

/// The bracketing property pins `isqrt(n)` down uniquely.
pub proof fn lemma_isqrt_unique(n: nat, r: nat)
    requires
        r * r <= n,
        n < (r + 1) * (r + 1),
    ensures
        r == isqrt(n),
{
    lemma_isqrt(n);
    let s = isqrt(n);
    if r < s {
        assert((r + 1) * (r + 1) <= s * s) by (nonlinear_arith)
            requires r + 1 <= s;
    }
    if s < r {
        assert((s + 1) * (s + 1) <= r * r) by (nonlinear_arith)
            requires s + 1 <= r;
    }
}

/// On non-negative operands, truncated division is Euclidean division.
pub proof fn lemma_tdiv_nonneg(a: int, b: int)
    requires
        a >= 0,
        b > 0,
    ensures
        tdiv(a, b) == a / b,
{
    assert(abs(a) == a);
    assert(abs(b) == b);
}

/// The product of two `i64` values stays within the `i128` range.
proof fn lemma_i64_product_range(a: int, b: int)
    by (nonlinear_arith)
    requires
        i64::MIN as int <= a <= i64::MAX as int,
        i64::MIN as int <= b <= i64::MAX as int,
    ensures
        a * b <= 0x4000_0000_0000_0000_0000_0000_0000_0000,
        -0x4000_0000_0000_0000_0000_0000_0000_0000 <= a * b,
{
}

/// Clamp an `i128` into the `i64` range.
fn clamp_i128(x: i128) -> (r: i64)
    ensures
        r as int == clamp64(x as int),
{
    if x > i64::MAX as i128 {
        i64::MAX
    } else if x < i64::MIN as i128 {
        i64::MIN
    } else {
        x as i64
    }
}

/// Truncated division on `i128`, computed on magnitudes.
fn tdiv_i128(a: i128, b: i128) -> (r: i128)
    requires
        b != 0,
        a != i128::MIN,
        b != i128::MIN,
    ensures
        r as int == tdiv(a as int, b as int),
{
    let am: u128 = if a >= 0 { a as u128 } else { (-a) as u128 };
    let bm: u128 = if b >= 0 { b as u128 } else { (-b) as u128 };
    assert(am as int == abs(a as int));
    assert(bm as int == abs(b as int));
    let q: u128 = am / bm;
    if (a >= 0) == (b >= 0) {
        q as i128
    } else {
        -(q as i128)
    }
}

/// Saturating addition of two fixed-point scalars.
pub fn add_fx(a: i64, b: i64) -> (r: i64)
    ensures
        r as int == fx_add(a as int, b as int),
{
    clamp_i128(a as i128 + b as i128)
}

/// Saturating subtraction of two fixed-point scalars.
pub fn sub_fx(a: i64, b: i64) -> (r: i64)
    ensures
        r as int == fx_sub(a as int, b as int),
{
    clamp_i128(a as i128 - b as i128)
}

/// Saturating negation of a fixed-point scalar.
pub fn neg_fx(a: i64) -> (r: i64)
    ensures
        r as int == fx_neg(a as int),
{
    clamp_i128(-(a as i128))
}

/// Saturating fixed-point multiplication.
pub fn mul_fx(a: i64, b: i64) -> (r: i64)
    ensures
        r as int == fx_mul(a as int, b as int),
{
    proof {
        lemma_i64_product_range(a as int, b as int);
    }
    let p: i128 = (a as i128) * (b as i128);
    clamp_i128(tdiv_i128(p, SCALE as i128))
}

/// Saturating fixed-point division; 0 when the divisor is 0.
pub fn div_fx(a: i64, b: i64) -> (r: i64)
    ensures
        r as int == fx_div(a as int, b as int),
{
    if b == 0 {
        0
    } else {
        let p: i128 = (a as i128) * 65536i128;
        clamp_i128(tdiv_i128(p, b as i128))
    }
}

/// Truncated division of two raw `i64` values (no rescaling).
pub fn trunc_div64(a: i64, b: i64) -> (r: i64)
    requires
        b > 0,
    ensures
        r as int == tdiv(a as int, b as int),
{
    let q: i128 = tdiv_i128(a as i128, b as i128);
    proof {
        assert(abs(a as int) / abs(b as int) <= abs(a as int)) by (nonlinear_arith)
            requires abs(b as int) >= 1;
    }
    q as i64
}

/// Integer square root of a `u128`, by bisection.
fn isqrt_u128(n: u128) -> (r: u128)
    ensures
        r as nat == isqrt(n as nat),
        r * r <= n,
{
    let mut lo: u128 = 0;
    let mut hi: u128 = 0x1_0000_0000_0000_0000;
    if n < hi {
        hi = n + 1;
        assert((n + 1) * (n + 1) > n) by (nonlinear_arith);
    } else {
        assert(hi as int * hi as int > n) by (nonlinear_arith)
            requires hi == 0x1_0000_0000_0000_0000, n <= u128::MAX;
    }
    while lo + 1 < hi
        invariant
            lo < hi <= 0x1_0000_0000_0000_0000,
            lo as int * lo as int <= n as int,
            hi as int * hi as int > n as int,
        decreases hi - lo,
    {
        let mid: u128 = lo + (hi - lo) / 2;
        assert(mid * mid < u128::MAX) by (nonlinear_arith)
            requires mid < 0x1_0000_0000_0000_0000;
        if mid * mid <= n {
            lo = mid;
        } else {
            hi = mid;
        }
    }
    proof {
        lemma_isqrt_unique(n as nat, lo as nat);
    }
    lo
}

/// Fixed-point square root; 0 for non-positive inputs.
pub fn sqrt_fx(a: i64) -> (r: i64)
    ensures
        r as int == fx_sqrt(a as int),
{
    if a <= 0 {
        0
    } else {
        let n: u128 = (a as u128) * 65536u128;
        let r: u128 = isqrt_u128(n);
        proof {
            lemma_isqrt(n as nat);
            assert(r as int <= 0x1_0000_0000_0000) by (nonlinear_arith)
                requires
                    r as int * r as int <= n as int,
                    n as int <= 0x8000_0000_0000_0000_0000int,
                    r >= 0;
        }
        r as i64
    }
}

} // verus!
