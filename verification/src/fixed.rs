//! Fixed-point arithmetic of the simulation.
//!
//! A length is an `i32` that counts thousandths of a world unit, a speed an
//! `i32` that counts thousandths of a world unit per second, and a span of
//! time a `u32` that counts microseconds. Fractions (a damping factor, the
//! scale of a transform) are thousandths as well. Division rounds toward zero,
//! so that mirrored motions stay mirrored. Coordinates and speeds live in
//! `[-LIMIT, LIMIT]`; a position that would leave this range stays at its
//! border.

use vstd::prelude::*;

verus! {

/// How many sub-units make one world unit, and the denominator of fractions.
pub const UNIT: i32 = 1000;

/// The largest magnitude of a coordinate or a speed.
pub const LIMIT: i32 = 1_000_000_000;

/// Microseconds in a second.
pub const MICROS_PER_SECOND: i64 = 1_000_000;

/// The absolute value of `x`.
pub open spec fn magnitude(x: int) -> int {
    if x < 0 {
        -x
    } else {
        x
    }
}

/// `x` moved into `[low, high]`.
pub open spec fn clamped(x: int, low: int, high: int) -> int {
    if x < low {
        low
    } else if x > high {
        high
    } else {
        x
    }
}

/// Whether `x` is a coordinate or speed of the simulation.
pub open spec fn in_limit(x: int) -> bool {
    -LIMIT <= x <= LIMIT
}

/// `x` moved into `[-LIMIT, LIMIT]`.
pub open spec fn saturated(x: int) -> int {
    clamped(x, -(LIMIT as int), LIMIT as int)
}

/// The quotient of `a` by a positive `b`, rounded toward zero.
pub open spec fn toward_zero(a: int, b: int) -> int {
    if a >= 0 {
        a / b
    } else {
        -((-a) / b)
    }
}

/// The distance covered in `micros` microseconds at `speed` per second.
pub open spec fn travel(speed: int, micros: int) -> int {
    toward_zero(speed * micros, MICROS_PER_SECOND as int)
}

/// `x` times the fraction `thousandths / UNIT`.
pub open spec fn scaled(x: int, thousandths: int) -> int {
    toward_zero(x * thousandths, UNIT as int)
}

/// Rounding toward zero keeps the sign and never grows the magnitude past the
/// exact quotient.
pub proof fn lemma_toward_zero_bounds(a: int, b: int)
    requires
        b > 0,
    ensures
        a >= 0 ==> 0 <= toward_zero(a, b) && toward_zero(a, b) * b <= a < (toward_zero(a, b) + 1) * b,
        a <= 0 ==> toward_zero(a, b) <= 0 && (toward_zero(a, b) - 1) * b < a <= toward_zero(a, b) * b,
        toward_zero(-a, b) == -toward_zero(a, b),
        magnitude(toward_zero(a, b)) <= magnitude(a),
{
    let m = magnitude(a);
    let k = m / b;
    assert(0 <= k && k * b <= m < (k + 1) * b && k <= m) by (nonlinear_arith)
        requires
            m >= 0,
            b > 0,
            k == m / b,
    ;
    if a >= 0 {
        assert(toward_zero(a, b) == k);
    }
    if a <= 0 {
        assert(m == 0 ==> k == 0) by (nonlinear_arith)
            requires
                0 <= k,
                k * b <= m,
                b > 0,
        ;
        assert(toward_zero(a, b) == -k);
        assert((-k - 1) * b == -((k + 1) * b) && (-k) * b == -(k * b)) by (nonlinear_arith);
    }
}

/// `x` moved into `[low, high]`.
pub fn clamp_i64(x: i64, low: i64, high: i64) -> (r: i64)
    requires
        low <= high,
    ensures
        r == clamped(x as int, low as int, high as int),
{
    if x < low {
        low
    } else if x > high {
        high
    } else {
        x
    }
}

/// `x` moved into `[-LIMIT, LIMIT]`.
pub fn saturate(x: i64) -> (r: i32)
    ensures
        r == saturated(x as int),
        in_limit(r as int),
{
    if x < -(LIMIT as i64) {
        -LIMIT
    } else if x > LIMIT as i64 {
        LIMIT
    } else {
        x as i32
    }
}

/// The absolute value of a number above `i64::MIN`.
pub fn abs_i64(x: i64) -> (r: i64)
    requires
        x > i64::MIN,
    ensures
        r == magnitude(x as int),
{
    if x < 0 {
        -x
    } else {
        x
    }
}

/// The quotient of `a` by a positive `b`, rounded toward zero.
pub fn div_toward_zero(a: i128, b: i128) -> (r: i128)
    requires
        b > 0,
        a > i128::MIN,
    ensures
        r == toward_zero(a as int, b as int),
{
    if a >= 0 {
        a / b
    } else {
        -((-a) / b)
    }
}

/// The distance covered in `micros` microseconds at `speed` per second.
pub fn travel_distance(speed: i32, micros: u32) -> (r: i64)
    ensures
        r == travel(speed as int, micros as int),
        magnitude(r as int) * MICROS_PER_SECOND <= magnitude(speed as int) * micros,
        -0x1_0000_0000_0000 < r < 0x1_0000_0000_0000,
{
    let s: i128 = speed as i128;
    let t: i128 = micros as i128;
    assert(-0x8000_0000_0000_0000 < s * t < 0x8000_0000_0000_0000 && magnitude(s * t) == magnitude(
        s as int,
    ) * t) by (nonlinear_arith)
        requires
            -0x8000_0000 <= s <= 0x7fff_ffff,
            0 <= t <= 0xffff_ffff,
    ;
    let q = div_toward_zero(s * t, MICROS_PER_SECOND as i128);
    proof {
        lemma_toward_zero_bounds(s * t, MICROS_PER_SECOND as int);
        lemma_toward_zero_bounds(-(s * t), MICROS_PER_SECOND as int);
    }
    q as i64
}

/// `x` times the fraction `thousandths / UNIT`.
pub fn scale(x: i32, thousandths: i32) -> (r: i64)
    ensures
        r == scaled(x as int, thousandths as int),
{
    let a: i128 = x as i128;
    let f: i128 = thousandths as i128;
    assert(-0x4000_0000_0000_0000 <= a * f <= 0x4000_0000_0000_0000) by (nonlinear_arith)
        requires
            -0x8000_0000 <= a <= 0x7fff_ffff,
            -0x8000_0000 <= f <= 0x7fff_ffff,
    ;
    let q = div_toward_zero(a * f, UNIT as i128);
    proof {
        lemma_toward_zero_bounds(a * f, UNIT as int);
    }
    q as i64
}

} // verus!
