//! Integer square root, used by the experience curve.

use vstd::prelude::*;

verus! {

/// Floor of the square root of `n`, defined by halving: the square root of
/// `n` is twice the square root of `n / 4`, possibly plus one.
pub open spec fn sqrt_floor(n: nat) -> nat
    decreases n,
{
    if n == 0 {
        0
    } else {
        let half = 2 * sqrt_floor(n / 4);
        if (half + 1) * (half + 1) <= n {
            half + 1
        } else {
            half
        }
    }
}

/// `r` is the integer square root of `n`: the largest integer whose square
/// does not exceed `n`.
pub open spec fn is_sqrt(n: nat, r: nat) -> bool {
    r * r <= n < (r + 1) * (r + 1)
}

/// `sqrt_floor` really is the integer square root.
pub proof fn lemma_sqrt_floor_is_sqrt(n: nat)
    ensures
        is_sqrt(n, sqrt_floor(n)),
    decreases n,
{
    if n == 0 {
        assert(n < (0 + 1) * (0 + 1)) by (nonlinear_arith)
            requires n == 0;
    } else {
        let m = n / 4;
        lemma_sqrt_floor_is_sqrt(m);
        let h = sqrt_floor(m);
        let half = 2 * h;
        vstd::arithmetic::div_mod::lemma_fundamental_div_mod(n as int, 4);
        vstd::arithmetic::div_mod::lemma_mod_bound(n as int, 4);
        assert(4 * m <= n < 4 * m + 4);
        assert(half * half == 4 * (h * h)) by (nonlinear_arith)
            requires half == 2 * h;
        assert((half + 2) * (half + 2) == 4 * ((h + 1) * (h + 1))) by (nonlinear_arith)
            requires half == 2 * h;
        assert(half * half <= n);
        assert(4 * m + 4 <= 4 * ((h + 1) * (h + 1)));
        assert(n < (half + 2) * (half + 2));
        if (half + 1) * (half + 1) <= n {
            assert(sqrt_floor(n) == half + 1);
            assert(is_sqrt(n, half + 1));
        } else {
            assert(sqrt_floor(n) == half);
            assert(is_sqrt(n, half));
        }
    }
}

/// Two integer square roots of the same number are equal.
pub proof fn lemma_sqrt_unique(n: nat, r1: nat, r2: nat)
    requires
        is_sqrt(n, r1),
        is_sqrt(n, r2),
    ensures
        r1 == r2,
{
    if r1 < r2 {
        assert((r1 + 1) * (r1 + 1) <= r2 * r2) by (nonlinear_arith)
            requires r1 + 1 <= r2;
    }
    if r2 < r1 {
        assert((r2 + 1) * (r2 + 1) <= r1 * r1) by (nonlinear_arith)
            requires r2 + 1 <= r1;
    }
}

/// Integer square root by binary search.
pub fn isqrt(n: u64) -> (r: u64)
    requires
        n < 1_000_000_000_000_000_000,
    ensures
        r as nat == sqrt_floor(n as nat),
        is_sqrt(n as nat, r as nat),
        r < 1_000_000_000,
{
    let mut lo: u64 = 0;
    let mut hi: u64 = 1_000_000_000;
    while lo + 1 < hi
        invariant
            lo < hi <= 1_000_000_000,
            (lo as int) * (lo as int) <= n as int,
            (n as int) < (hi as int) * (hi as int),
        decreases hi - lo,
    {
        let mid = lo + (hi - lo) / 2;
        assert((mid as int) * (mid as int) <= 1_000_000_000_000_000_000) by (nonlinear_arith)
            requires mid <= 1_000_000_000;
        if mid * mid <= n {
            lo = mid;
        } else {
            hi = mid;
        }
    }
    proof {
        lemma_sqrt_floor_is_sqrt(n as nat);
        lemma_sqrt_unique(n as nat, lo as nat, sqrt_floor(n as nat));
    }
    lo
}

} // verus!
