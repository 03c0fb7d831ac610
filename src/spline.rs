//! Quadratic Bezier evaluation and blending of a position toward a target,
//! on fixed-point values.
use crate::fixed::{floor_div, lemma_div_between, Vec2, ONE};
use vstd::prelude::*;

verus! {

/// One coordinate of the quadratic Bezier curve through `a`, `b`, `c` at the
/// parameter `t` (in millionths):
/// `a (1-t)^2 + 2 b (1-t) t + c t^2`, rounded down to a millionth.
pub open spec fn bezier_spec(t: int, a: int, b: int, c: int) -> int {
    let u = ONE - t;
    (a * u * u + 2 * b * u * t + c * t * t) / (ONE * ONE)
}

/// The point of the curve `(p1, p2, p3)` at the parameter `t`.
pub open spec fn bezier_point_spec(t: int, p1: Vec2, p2: Vec2, p3: Vec2) -> Vec2 {
    Vec2 {
        x: bezier_spec(t, p1.x as int, p2.x as int, p3.x as int) as i64,
        y: bezier_spec(t, p1.y as int, p2.y as int, p3.y as int) as i64,
    }
}

/// `pos` moved toward `target` by the fraction `s` (in millionths) of the
/// distance between them, rounded down to a millionth.
pub open spec fn blend_spec(pos: int, target: int, s: int) -> int {
    pos + ((target - pos) * s) / (ONE as int)
}

pub open spec fn min3(a: int, b: int, c: int) -> int {
    if a <= b && a <= c {
        a
    } else if b <= c {
        b
    } else {
        c
    }
}

pub open spec fn max3(a: int, b: int, c: int) -> int {
    if a >= b && a >= c {
        a
    } else if b >= c {
        b
    } else {
        c
    }
}

/// At a parameter in `[0, 1]` the curve stays between the smallest and the
/// largest of its control coordinates.
pub proof fn lemma_bezier_bounded(t: int, a: int, b: int, c: int)
    requires
        0 <= t <= ONE,
    ensures
        min3(a, b, c) <= bezier_spec(t, a, b, c) <= max3(a, b, c),
{
    let u = ONE - t;
    let lo = min3(a, b, c);
    let hi = max3(a, b, c);
    let n = a * u * u + 2 * b * u * t + c * t * t;
    assert(u * u + 2 * u * t + t * t == ONE * ONE) by (nonlinear_arith)
        requires
            u == ONE - t,
    ;
    assert(lo * (ONE * ONE) <= n <= hi * (ONE * ONE)) by (nonlinear_arith)
        requires
            0 <= t,
            0 <= u,
            lo <= a <= hi,
            lo <= b <= hi,
            lo <= c <= hi,
            n == a * u * u + 2 * b * u * t + c * t * t,
            u * u + 2 * u * t + t * t == ONE * ONE,
    ;
    lemma_div_between(n, ONE * ONE, lo, hi);
}

/// The curve starts at its first control point and ends at its last.
pub proof fn lemma_bezier_endpoints(a: int, b: int, c: int)
    ensures
        bezier_spec(0, a, b, c) == a,
        bezier_spec(ONE as int, a, b, c) == c,
{
    assert(a * ONE * ONE + 2 * b * ONE * 0 + c * 0 * 0 == a * (ONE * ONE)) by (nonlinear_arith);
    assert(a * 0 * 0 + 2 * b * 0 * ONE + c * ONE * ONE == c * (ONE * ONE)) by (nonlinear_arith);
    lemma_div_between(a * (ONE * ONE), ONE * ONE, a, a);
    lemma_div_between(c * (ONE * ONE), ONE * ONE, c, c);
}

/// One coordinate of the quadratic Bezier curve at `t`.
pub fn bezier_axis(t: i64, a: i64, b: i64, c: i64) -> (r: i64)
    requires
        0 <= t <= ONE,
    ensures
        r == bezier_spec(t as int, a as int, b as int, c as int),
{
    proof {
        lemma_bezier_bounded(t as int, a as int, b as int, c as int);
    }
    let u: i128 = (ONE - t) as i128;
    let tt: i128 = t as i128;
    assert(0 <= u * u <= 1_000_000_000_000 && 0 <= u * tt <= 1_000_000_000_000 && 0 <= tt * tt <= 1_000_000_000_000)
        by (nonlinear_arith)
        requires
            0 <= u <= 1_000_000,
            0 <= tt <= 1_000_000,
    ;
    let w1: i128 = u * u;
    let w2: i128 = u * tt;
    let w3: i128 = tt * tt;
    let ai: i128 = a as i128;
    let bi: i128 = b as i128;
    let ci: i128 = c as i128;
    assert(-0x800_0000_0000_0000_0000_0000_0000 <= ai * w1 <= 0x800_0000_0000_0000_0000_0000_0000
        && -0x800_0000_0000_0000_0000_0000_0000 <= bi * w2 <= 0x800_0000_0000_0000_0000_0000_0000
        && -0x800_0000_0000_0000_0000_0000_0000 <= ci * w3 <= 0x800_0000_0000_0000_0000_0000_0000)
        by (nonlinear_arith)
        requires
            0 <= w1 <= 1_000_000_000_000,
            0 <= w2 <= 1_000_000_000_000,
            0 <= w3 <= 1_000_000_000_000,
            i64::MIN <= ai <= i64::MAX,
            i64::MIN <= bi <= i64::MAX,
            i64::MIN <= ci <= i64::MAX,
    ;
    let n: i128 = ai * w1 + 2 * (bi * w2) + ci * w3;
    assert(n == a * u * u + 2 * b * u * tt + c * tt * tt) by (nonlinear_arith)
        requires
            n == ai * w1 + 2 * (bi * w2) + ci * w3,
            w1 == u * u,
            w2 == u * tt,
            w3 == tt * tt,
            ai == a,
            bi == b,
            ci == c,
    ;
    let q: i128 = floor_div(n, (ONE * ONE) as i128);
    q as i64
}

/// The point of the quadratic Bezier curve through `point_1`, `point_2` and
/// `point_3` at the parameter `t`, which lies in `[0, ONE]`.
pub fn calculate_bezier_point(t: i64, point_1: Vec2, point_2: Vec2, point_3: Vec2) -> (r: Vec2)
    requires
        0 <= t <= ONE,
    ensures
        r == bezier_point_spec(t as int, point_1, point_2, point_3),
{
    Vec2 {
        x: bezier_axis(t, point_1.x, point_2.x, point_3.x),
        y: bezier_axis(t, point_1.y, point_2.y, point_3.y),
    }
}

/// One coordinate of `pos` moved toward `target` by the fraction `s` of the
/// way, where `s` lies in `[0, ONE]`.
pub fn blend_axis(pos: i64, target: i64, s: i64) -> (r: i64)
    requires
        0 <= s <= ONE,
    ensures
        r == blend_spec(pos as int, target as int, s as int),
{
    let diff: i128 = target as i128 - pos as i128;
    let ghost lo: int = if diff < 0 { diff as int } else { 0 };
    let ghost hi: int = if diff < 0 { 0 } else { diff as int };
    assert(lo * ONE <= diff * s <= hi * ONE && -0x100_0000_0000_0000_0000_0000 <= diff * s
        <= 0x100_0000_0000_0000_0000_0000) by (nonlinear_arith)
        requires
            0 <= s <= ONE,
            lo == if diff < 0 { diff as int } else { 0 },
            hi == if diff < 0 { 0 } else { diff as int },
            -0x2_0000_0000_0000_0000 <= diff <= 0x2_0000_0000_0000_0000,
    ;
    let m: i128 = diff * (s as i128);
    proof {
        lemma_div_between(m as int, ONE as int, lo, hi);
    }
    let q: i128 = floor_div(m, ONE as i128);
    (pos as i128 + q) as i64
}

/// `pos` moved toward `target` by the fraction `s` of the way, per coordinate.
pub fn blend_point(pos: Vec2, target: Vec2, s: i64) -> (r: Vec2)
    requires
        0 <= s <= ONE,
    ensures
        r.x == blend_spec(pos.x as int, target.x as int, s as int),
        r.y == blend_spec(pos.y as int, target.y as int, s as int),
{
    Vec2 { x: blend_axis(pos.x, target.x, s), y: blend_axis(pos.y, target.y, s) }
}

} // verus!
