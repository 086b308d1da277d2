//! Exact integer helpers for the fixed-point geometry: bounded products,
//! sign-aware truncating division, and an integer square root.

use vstd::prelude::*;

verus! {

/// Magnitude bound accepted by [`mul_q`]; products of two such values fit i128.
pub const MUL_LIMIT: i128 = 0x1000_0000_0000_0000;

/// Dividends accepted by [`div_q`] and radicands accepted by [`isqrt`].
pub const RADICAND_LIMIT: i128 = 0x4000_0000_0000_0000_0000_0000_0000_0000;

/// Square roots returned by [`isqrt`] never exceed this.
pub const ROOT_LIMIT: i128 = 0x8000_0000_0000_0000;

pub proof fn lemma_mul_bounds(a: int, b: int, m: int, n: int)
    by (nonlinear_arith)
    requires
        -m <= a <= m,
        -n <= b <= n,
        0 <= m,
        0 <= n,
    ensures
        -(m * n) <= a * b <= m * n,
{
}

/// Exact product of two magnitude-bounded values.
pub fn mul_q(a: i128, b: i128) -> (r: i128)
    requires
        -MUL_LIMIT <= a <= MUL_LIMIT,
        -MUL_LIMIT <= b <= MUL_LIMIT,
    ensures
        r == a * b,
        -MUL_LIMIT * MUL_LIMIT <= r <= MUL_LIMIT * MUL_LIMIT,
{
    proof {
        lemma_mul_bounds(a as int, b as int, MUL_LIMIT as int, MUL_LIMIT as int);
    }
    a * b
}

/// Magnitude bounds accepted by [`mul_w`], a product of one wide and one
/// narrow value.
pub const WIDE_LIMIT: i128 = 0x10_0000_0000_0000_0000_0000_0000;

/// The narrow side of [`mul_w`].
pub const NARROW_LIMIT: i128 = 0x200_0000;

/// Magnitude bound accepted by [`dot3`] components.
pub const DOT_LIMIT: i128 = 0x10_0000_0000_0000;

/// Exact product of a wide and a narrow value.
pub fn mul_w(a: i128, b: i128) -> (r: i128)
    requires
        -WIDE_LIMIT <= a <= WIDE_LIMIT,
        -NARROW_LIMIT <= b <= NARROW_LIMIT,
    ensures
        r == a * b,
        -WIDE_LIMIT * NARROW_LIMIT <= r <= WIDE_LIMIT * NARROW_LIMIT,
{
    proof {
        lemma_mul_bounds(a as int, b as int, WIDE_LIMIT as int, NARROW_LIMIT as int);
    }
    a * b
}

/// Exact dot product of two component-bounded 3D vectors.
pub fn dot3(ax: i128, ay: i128, az: i128, bx: i128, by: i128, bz: i128) -> (r: i128)
    requires
        -DOT_LIMIT <= ax <= DOT_LIMIT,
        -DOT_LIMIT <= ay <= DOT_LIMIT,
        -DOT_LIMIT <= az <= DOT_LIMIT,
        -DOT_LIMIT <= bx <= DOT_LIMIT,
        -DOT_LIMIT <= by <= DOT_LIMIT,
        -DOT_LIMIT <= bz <= DOT_LIMIT,
    ensures
        r == ax * bx + ay * by + az * bz,
        -3 * DOT_LIMIT * DOT_LIMIT <= r <= 3 * DOT_LIMIT * DOT_LIMIT,
{
    proof {
        lemma_mul_bounds(ax as int, bx as int, DOT_LIMIT as int, DOT_LIMIT as int);
        lemma_mul_bounds(ay as int, by as int, DOT_LIMIT as int, DOT_LIMIT as int);
        lemma_mul_bounds(az as int, bz as int, DOT_LIMIT as int, DOT_LIMIT as int);
    }
    ax * bx + ay * by + az * bz
}

/// Exact cross product of two component-bounded 3D vectors.
pub fn cross3(ax: i128, ay: i128, az: i128, bx: i128, by: i128, bz: i128) -> (r: (i128, i128, i128))
    requires
        -NARROW_LIMIT <= ax <= NARROW_LIMIT,
        -NARROW_LIMIT <= ay <= NARROW_LIMIT,
        -NARROW_LIMIT <= az <= NARROW_LIMIT,
        -NARROW_LIMIT <= bx <= NARROW_LIMIT,
        -NARROW_LIMIT <= by <= NARROW_LIMIT,
        -NARROW_LIMIT <= bz <= NARROW_LIMIT,
    ensures
        r.0 == ay * bz - az * by,
        r.1 == az * bx - ax * bz,
        r.2 == ax * by - ay * bx,
        -DOT_LIMIT <= r.0 <= DOT_LIMIT,
        -DOT_LIMIT <= r.1 <= DOT_LIMIT,
        -DOT_LIMIT <= r.2 <= DOT_LIMIT,
{
    proof {
        lemma_mul_bounds(ay as int, bz as int, NARROW_LIMIT as int, NARROW_LIMIT as int);
        lemma_mul_bounds(az as int, by as int, NARROW_LIMIT as int, NARROW_LIMIT as int);
        lemma_mul_bounds(az as int, bx as int, NARROW_LIMIT as int, NARROW_LIMIT as int);
        lemma_mul_bounds(ax as int, bz as int, NARROW_LIMIT as int, NARROW_LIMIT as int);
        lemma_mul_bounds(ax as int, by as int, NARROW_LIMIT as int, NARROW_LIMIT as int);
        lemma_mul_bounds(ay as int, bx as int, NARROW_LIMIT as int, NARROW_LIMIT as int);
    }
    (ay * bz - az * by, az * bx - ax * bz, ax * by - ay * bx)
}

/// Magnitude bound accepted by [`mul_unit`]: the scale of unit-direction
/// components.
pub const UNIT_COMP_LIMIT: i128 = 0x10_0000;

/// Exact product of two unit-direction components, with a tight bound.
pub fn mul_unit(a: i128, b: i128) -> (r: i128)
    requires
        -UNIT_COMP_LIMIT <= a <= UNIT_COMP_LIMIT,
        -UNIT_COMP_LIMIT <= b <= UNIT_COMP_LIMIT,
    ensures
        r == a * b,
        -UNIT_COMP_LIMIT * UNIT_COMP_LIMIT <= r <= UNIT_COMP_LIMIT * UNIT_COMP_LIMIT,
        a == b ==> r >= 0,
{
    proof {
        lemma_mul_bounds(a as int, b as int, UNIT_COMP_LIMIT as int, UNIT_COMP_LIMIT as int);
        assert(a == b ==> a * b >= 0) by (nonlinear_arith);
    }
    a * b
}

/// Decides whether `v` lies within `[-m, m]`.
pub fn within_limit(v: i128, m: i128) -> (r: bool)
    requires
        m >= 0,
    ensures
        r == (-m <= v <= m),
{
    -m <= v && v <= m
}

/// Truncating division; only the magnitude of the quotient is promised,
/// which is all the numerical kernel of the solver needs.
pub fn div_q(num: i128, den: i128) -> (q: i128)
    requires
        1 <= den,
        -RADICAND_LIMIT < num < RADICAND_LIMIT,
    ensures
        num >= 0 ==> 0 <= q <= num,
        num < 0 ==> num <= q <= 0,
{
    if num >= 0 {
        let q = num / den;
        proof {
            assert(0 <= num / den <= num) by (nonlinear_arith)
                requires
                    num >= 0,
                    den >= 1,
            ;
        }
        q
    } else {
        let pos = -num;
        let q = pos / den;
        proof {
            assert(0 <= pos / den <= pos) by (nonlinear_arith)
                requires
                    pos >= 0,
                    den >= 1,
            ;
        }
        -q
    }
}

/// Flooring division: the greatest `q` with `den * q <= num`.
pub fn div_floor(num: i128, den: i128) -> (q: i128)
    requires
        1 <= den <= 0x4000_0000,
        -RADICAND_LIMIT < num < RADICAND_LIMIT,
    ensures
        den * q <= num < den * (q + 1),
        num >= 0 ==> 0 <= q <= num,
        num < 0 ==> num <= q <= 0,
{
    if num >= 0 {
        let q = num / den;
        proof {
            assert(den * q <= num < den * (q + 1) && 0 <= q <= num) by (nonlinear_arith)
                requires
                    q == num / den,
                    num >= 0,
                    den >= 1,
            ;
        }
        q
    } else {
        let m = -num;
        let k = (m + den - 1) / den;
        proof {
            assert(den * (-k) <= num < den * (-k + 1) && num <= -k <= 0) by (nonlinear_arith)
                requires
                    k as int == (m as int + den as int - 1) / (den as int),
                    m >= 1,
                    den >= 1,
                    num == -m,
            ;
        }
        -k
    }
}

/// Integer square root: the greatest `r` with `r * r <= n`.
pub fn isqrt(n: i128) -> (r: i128)
    requires
        0 <= n < RADICAND_LIMIT,
    ensures
        0 <= r <= ROOT_LIMIT,
        r * r <= n,
        (r + 1) * (r + 1) > n,
{
    let mut lo: i128 = 0;
    let mut hi: i128 = ROOT_LIMIT;
    proof {
        assert((ROOT_LIMIT + 1) * (ROOT_LIMIT + 1) > n) by (nonlinear_arith)
            requires
                n < RADICAND_LIMIT,
        ;
    }
    while lo < hi
        invariant
            0 <= lo <= hi <= ROOT_LIMIT,
            lo * lo <= n,
            (hi + 1) * (hi + 1) > n,
            n < RADICAND_LIMIT,
        decreases hi - lo,
    {
        let mid = lo + (hi - lo + 1) / 2;
        proof {
            lemma_mul_bounds(mid as int, mid as int, ROOT_LIMIT as int, ROOT_LIMIT as int);
        }
        if mid * mid <= n {
            lo = mid;
        } else {
            proof {
                assert((mid - 1 + 1) * (mid - 1 + 1) == mid * mid);
            }
            hi = mid - 1;
        }
    }
    lo
}

} // verus!
