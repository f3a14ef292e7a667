//! Saturating fixed-point arithmetic.
//!
//! Every physical quantity is an `i64` counting millionths of its unit
//! (`ONE` stands for 1.0). Results are truncated toward zero, as a
//! conversion to an integer would, and saturate at `LIMIT`, so that a
//! simulation may run for any number of ticks without overflow.
use vstd::prelude::*;

verus! {

/// The fixed-point representation of 1.0.
pub const ONE: i64 = 1_000_000;

/// The largest magnitude a quantity may take (10^9 units).
pub const LIMIT: i64 = 1_000_000_000_000_000;

/// A value that a quantity may hold.
pub open spec fn in_range(x: int) -> bool {
    -LIMIT <= x <= LIMIT
}

/// `x` saturated to `[-LIMIT, LIMIT]`.
pub open spec fn sat(x: int) -> int {
    if x > LIMIT {
        LIMIT as int
    } else if x < -LIMIT {
        -LIMIT
    } else {
        x
    }
}

/// Division by a positive `d`, rounded toward zero.
pub open spec fn tdiv(a: int, d: int) -> int {
    if a >= 0 {
        a / d
    } else {
        -((-a) / d)
    }
}

/// The absolute value of `x`.
pub open spec fn magnitude(x: int) -> int {
    if x < 0 {
        -x
    } else {
        x
    }
}

/// Rounding toward zero never grows a quotient's magnitude, never flips its
/// sign, and keeps the order of dividends.
pub proof fn lemma_tdiv_bounds(a: int, b: int, d: int)
    requires
        d > 0,
    ensures
        magnitude(tdiv(a, d)) * d <= magnitude(a),
        a >= 0 ==> tdiv(a, d) >= 0,
        a <= 0 ==> tdiv(a, d) <= 0,
        magnitude(a) >= d ==> tdiv(a, d) != 0,
        a <= b ==> tdiv(a, d) <= tdiv(b, d),
{
    let m = magnitude(a);
    assert(0 <= (m / d) * d <= m) by (nonlinear_arith)
        requires
            m >= 0,
            d > 0,
    ;
    assert(m >= d ==> m / d >= 1) by (nonlinear_arith)
        requires
            m >= 0,
            d > 0,
    ;
    if a <= b {
        if 0 <= a {
            assert(a / d <= b / d) by (nonlinear_arith)
                requires
                    0 <= a <= b,
                    d > 0,
            ;
        } else if b <= 0 {
            assert((-b) / d <= (-a) / d) by (nonlinear_arith)
                requires
                    0 <= -b <= -a,
                    d > 0,
            ;
        } else {
            assert((-a) / d >= 0 && b / d >= 0) by (nonlinear_arith)
                requires
                    a < 0 < b,
                    d > 0,
            ;
        }
    }
}

/// Division by a positive `d`, rounded away from zero, so that a nonzero
/// quotient keeps the sign of `a`.
pub open spec fn adiv(a: int, d: int) -> int {
    if a >= 0 {
        (a + d - 1) / d
    } else {
        -((-a + d - 1) / d)
    }
}

/// A quotient rounded away from zero is zero only for zero, and has the
/// sign of the dividend.
pub proof fn lemma_adiv_sign(a: int, d: int)
    requires
        d > 0,
    ensures
        a > 0 ==> adiv(a, d) >= 1,
        a < 0 ==> adiv(a, d) <= -1,
        a == 0 ==> adiv(a, d) == 0,
        -a <= adiv(a, d) <= a || a <= adiv(a, d) <= -a,
{
    if a > 0 {
        assert(1 <= (a + d - 1) / d <= a) by (nonlinear_arith)
            requires
                a > 0,
                d > 0,
        ;
    } else if a < 0 {
        let b = -a;
        assert(1 <= (b + d - 1) / d <= b) by (nonlinear_arith)
            requires
                b > 0,
                d > 0,
        ;
    } else {
        assert((d - 1) / d == 0) by (nonlinear_arith)
            requires
                d > 0,
        ;
    }
}

/// The sum of two quantities.
pub open spec fn qadd(a: int, b: int) -> int {
    sat(a + b)
}

/// The difference of two quantities.
pub open spec fn qsub(a: int, b: int) -> int {
    sat(a - b)
}

/// The product of two quantities.
pub open spec fn qmul(a: int, b: int) -> int {
    sat(tdiv(a * b, ONE as int))
}

/// The quotient of two quantities, for a positive divisor.
pub open spec fn qdiv(a: int, b: int) -> int {
    sat(tdiv(a * ONE, b))
}

/// A quantity multiplied by the plain fraction `n / d`.
pub open spec fn qscale(a: int, n: int, d: int) -> int {
    sat(tdiv(a * n, d))
}

/// Division of a bounded magnitude by a positive divisor, rounded toward zero.
pub(crate) fn div_toward_zero(a: i128, d: i128) -> (q: i128)
    requires
        d > 0,
        -0x1_0000_0000_0000_0000_0000_0000_0000 <= a <= 0x1_0000_0000_0000_0000_0000_0000_0000,
    ensures
        q == tdiv(a as int, d as int),
{
    if a >= 0 {
        let n = a as u128;
        (n / (d as u128)) as i128
    } else {
        let n = (-a) as u128;
        let q = n / (d as u128);
        assert(q <= n) by (nonlinear_arith)
            requires
                q == n / (d as u128),
                d > 0,
        ;
        -(q as i128)
    }
}

/// Division of a bounded magnitude by a positive divisor, rounded away from
/// zero.
pub(crate) fn div_away_from_zero(a: i128, d: i128) -> (q: i128)
    requires
        d > 0,
        -0x1_0000_0000_0000_0000_0000_0000_0000 <= a <= 0x1_0000_0000_0000_0000_0000_0000_0000,
    ensures
        q == adiv(a as int, d as int),
{
    proof {
        lemma_adiv_sign(a as int, d as int);
    }
    if a >= 0 {
        let n = a as u128 + (d as u128 - 1);
        (n / (d as u128)) as i128
    } else {
        let n = (-a) as u128 + (d as u128 - 1);
        let q = n / (d as u128);
        -(q as i128)
    }
}

pub(crate) fn saturate(x: i128) -> (r: i64)
    ensures
        r == sat(x as int),
{
    if x > LIMIT as i128 {
        LIMIT
    } else if x < -(LIMIT as i128) {
        -LIMIT
    } else {
        x as i64
    }
}

pub fn q_add(a: i64, b: i64) -> (r: i64)
    requires
        in_range(a as int),
        in_range(b as int),
    ensures
        r == qadd(a as int, b as int),
{
    saturate(a as i128 + b as i128)
}

pub fn q_sub(a: i64, b: i64) -> (r: i64)
    requires
        in_range(a as int),
        in_range(b as int),
    ensures
        r == qsub(a as int, b as int),
{
    saturate(a as i128 - b as i128)
}

pub fn q_mul(a: i64, b: i64) -> (r: i64)
    requires
        in_range(a as int),
        in_range(b as int),
    ensures
        r == qmul(a as int, b as int),
{
    assert(-LIMIT * LIMIT <= a * b <= LIMIT * LIMIT) by (nonlinear_arith)
        requires
            -LIMIT <= a <= LIMIT,
            -LIMIT <= b <= LIMIT,
    ;
    let p = a as i128 * b as i128;
    saturate(div_toward_zero(p, ONE as i128))
}

pub fn q_div(a: i64, b: i64) -> (r: i64)
    requires
        in_range(a as int),
        b > 0,
    ensures
        r == qdiv(a as int, b as int),
{
    saturate(div_toward_zero(a as i128 * ONE as i128, b as i128))
}

pub fn q_scale(a: i64, n: u32, d: u32) -> (r: i64)
    requires
        in_range(a as int),
        d > 0,
    ensures
        r == qscale(a as int, n as int, d as int),
{
    assert(-LIMIT * 0x1_0000_0000 <= a * n <= LIMIT * 0x1_0000_0000) by (nonlinear_arith)
        requires
            -LIMIT <= a <= LIMIT,
            0 <= n < 0x1_0000_0000,
    ;
    let p = a as i128 * n as i128;
    saturate(div_toward_zero(p, d as i128))
}

} // verus!
