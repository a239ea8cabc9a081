//! Whole-number arithmetic behind the geometry: saturation into the
//! coordinate range, floor division and the integer square root.

use vstd::prelude::*;
use vstd::arithmetic::div_mod::lemma_fundamental_div_mod;
use vstd::arithmetic::div_mod::lemma_fundamental_div_mod_converse;
use vstd::arithmetic::div_mod::lemma_mod_bound;

verus! {

/// The value of the coordinate range that is nearest to `v`.
pub open spec fn saturate(v: int) -> i32 {
    if v < i32::MIN {
        i32::MIN
    } else if v > i32::MAX {
        i32::MAX
    } else {
        v as i32
    }
}

/// Brings a wide intermediate result back into the coordinate range.
pub fn saturate_wide(v: i128) -> (r: i32)
    ensures
        r == saturate(v as int),
{
    if v < -2147483648i128 {
        i32::MIN
    } else if v > 2147483647i128 {
        i32::MAX
    } else {
        v as i32
    }
}

/// Sum of two coordinates, held at the ends of the range.
pub fn saturating_sum(a: i32, b: i32) -> (r: i32)
    ensures
        r == saturate(a + b),
{
    let wide: i128 = a as i128 + b as i128;
    saturate_wide(wide)
}

/// Difference of two coordinates, held at the ends of the range.
pub fn saturating_difference(a: i32, b: i32) -> (r: i32)
    ensures
        r == saturate(a - b),
{
    let wide: i128 = a as i128 - b as i128;
    saturate_wide(wide)
}

/// Quotient rounded towards minus infinity, for a positive divisor.
pub fn floor_div(a: i128, b: i128) -> (q: i128)
    requires
        b > 0,
    ensures
        q == a as int / b as int,
{
    if a >= 0 {
        a / b
    } else {
        let m: i128 = -(a + 1);
        let qm: i128 = m / b;
        proof {
            let bi = b as int;
            let mi = m as int;
            lemma_fundamental_div_mod(mi, bi);
            lemma_mod_bound(mi, bi);
            let rm = mi % bi;
            assert(mi == bi * (mi / bi) + rm);
            assert(a as int == (-(mi / bi) - 1) * bi + (bi - rm - 1)) by (nonlinear_arith)
                requires
                    mi == bi * (mi / bi) + rm,
                    a as int == -mi - 1,
            ;
            lemma_fundamental_div_mod_converse(a as int, bi, -(mi / bi) - 1, bi - rm - 1);
        }
        -qm - 1
    }
}

/// `r` is the integer square root of `n`: the largest integer whose square
/// does not exceed `n`.
pub open spec fn is_floor_sqrt(n: int, r: int) -> bool {
    0 <= r && r * r <= n && n < (r + 1) * (r + 1)
}

/// The integer square root of a non-negative `n`.
pub open spec fn floor_sqrt(n: int) -> int {
    choose|r: int| is_floor_sqrt(n, r)
}

/// A number has at most one integer square root.
pub proof fn lemma_floor_sqrt_unique(n: int, r1: int, r2: int)
    requires
        is_floor_sqrt(n, r1),
        is_floor_sqrt(n, r2),
    ensures
        r1 == r2,
{
    if r1 < r2 {
        assert((r1 + 1) * (r1 + 1) <= r2 * r2) by (nonlinear_arith)
            requires
                0 <= r1,
                r1 + 1 <= r2,
        ;
    } else if r2 < r1 {
        assert((r2 + 1) * (r2 + 1) <= r1 * r1) by (nonlinear_arith)
            requires
                0 <= r2,
                r2 + 1 <= r1,
        ;
    }
}

/// Integer square root by bisection.
pub fn isqrt(n: u128) -> (r: u64)
    ensures
        is_floor_sqrt(n as int, r as int),
        r as int == floor_sqrt(n as int),
{
    let mut lo: u128 = 0;
    let mut hi: u128 = 0x1_0000_0000_0000_0000u128;
    assert(n < hi * hi) by (nonlinear_arith)
        requires
            hi == 0x1_0000_0000_0000_0000u128,
            n <= u128::MAX,
    ;
    while hi - lo > 1
        invariant
            lo < hi <= 0x1_0000_0000_0000_0000u128,
            lo * lo <= n,
            n < hi * hi,
        decreases hi - lo,
    {
        let mid: u128 = lo + (hi - lo) / 2;
        assert(mid * mid <= u128::MAX) by (nonlinear_arith)
            requires
                mid < 0x1_0000_0000_0000_0000u128,
        ;
        if mid * mid <= n {
            lo = mid;
        } else {
            hi = mid;
        }
    }
    proof {
        assert(is_floor_sqrt(n as int, lo as int));
        lemma_floor_sqrt_unique(n as int, lo as int, floor_sqrt(n as int));
    }
    lo as u64
}

} // verus!
