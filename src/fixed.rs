//! Fixed-point arithmetic: every scalar quantity is an `i64` counted in
//! millionths, so `ONE` stands for the value 1.
use vstd::arithmetic::div_mod::{lemma_fundamental_div_mod, lemma_fundamental_div_mod_converse, lemma_mod_bound};
use vstd::prelude::*;

verus! {

/// The fixed-point representation of 1.
pub const ONE: i64 = 1_000_000;

/// `x` clamped into `[lo, hi]`.
pub open spec fn clamp_spec(x: int, lo: int, hi: int) -> int {
    if x < lo {
        lo
    } else if x > hi {
        hi
    } else {
        x
    }
}

/// `x` saturated to the range of `i64`.
pub open spec fn sat(x: int) -> int {
    clamp_spec(x, i64::MIN as int, i64::MAX as int)
}

/// Sum of two quantities, saturating at the bounds of `i64`.
pub fn add_sat(a: i64, b: i64) -> (r: i64)
    ensures
        r == sat(a + b),
{
    let s: i128 = a as i128 + b as i128;
    if s < i64::MIN as i128 {
        i64::MIN
    } else if s > i64::MAX as i128 {
        i64::MAX
    } else {
        s as i64
    }
}

/// Floor division of `n` by a positive `d`.
pub fn floor_div(n: i128, d: i128) -> (r: i128)
    requires
        0 < d <= 0x100_0000_0000_0000,
        -0x1000_0000_0000_0000_0000_0000_0000 <= n <= 0x1000_0000_0000_0000_0000_0000_0000,
    ensures
        r == n / d,
{
    if n >= 0 {
        n / d
    } else {
        let m: i128 = -n;
        let q: i128 = (m + (d - 1)) / d;
        proof {
            let dd: int = d as int;
            let s: int = m + dd - 1;
            let qq: int = q as int;
            lemma_fundamental_div_mod(s, dd);
            lemma_mod_bound(s, dd);
            let rr: int = s % dd;
            assert(s == qq * dd + rr) by (nonlinear_arith)
                requires
                    s == dd * (s / dd) + rr,
                    qq == s / dd,
            ;
            assert(n == (-qq) * dd + (dd - 1 - rr)) by (nonlinear_arith)
                requires
                    s == qq * dd + rr,
                    n == -m,
                    s == m + dd - 1,
            ;
            lemma_fundamental_div_mod_converse(n as int, dd, -qq, dd - 1 - rr);
        }
        -q
    }
}

} // verus!

verus! {

/// A two-dimensional vector of fixed-point coordinates.
#[derive(Clone, Copy, Debug, PartialEq, Eq, Structural)]
pub struct Vec2 {
    pub x: i64,
    pub y: i64,
}

impl Vec2 {
    /// The vector `(x, y)`.
    pub fn new(x: i64, y: i64) -> (r: Vec2)
        ensures
            r.x == x,
            r.y == y,
    {
        Vec2 { x, y }
    }

    /// Component-wise saturating sum.
    pub fn add_sat(self, o: Vec2) -> (r: Vec2)
        ensures
            r.x == sat(self.x + o.x),
            r.y == sat(self.y + o.y),
    {
        Vec2 { x: add_sat(self.x, o.x), y: add_sat(self.y, o.y) }
    }
}

/// If `lo * d <= n <= hi * d` for a positive `d`, the floor of `n / d` lies in `[lo, hi]`.
pub proof fn lemma_div_between(n: int, d: int, lo: int, hi: int)
    requires
        d > 0,
        lo * d <= n <= hi * d,
    ensures
        lo <= n / d <= hi,
{
    lemma_fundamental_div_mod(n, d);
    lemma_mod_bound(n, d);
    let q = n / d;
    let r = n % d;
    assert(lo <= q <= hi) by (nonlinear_arith)
        requires
            n == d * q + r,
            0 <= r < d,
            d > 0,
            lo * d <= n <= hi * d,
    ;
}

} // verus!
