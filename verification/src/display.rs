//! The computation behind status bars: how many slots of a fixed-width
//! bar a stat fills.

use vstd::prelude::*;

verus! {

/// The ceiling of `a / b`, for a non-negative numerator and a positive
/// denominator.
pub open spec fn ceil_div(a: int, b: int) -> int {
    (a + b - 1) / b
}

/// Split a bar of `slots` cells between a stat at `current` out of
/// `total`: the first component is the filled cells,
/// ceil(current * slots / total), the second the remaining empty ones.
/// Any nonzero fraction of a cell fills it, so a stat only shows an empty
/// bar when it is exactly zero.
pub fn bar_slots(slots: i32, total: i32, current: i32) -> (r: (i32, i32))
    requires
        0 <= slots,
        1 <= total,
        0 <= current <= total,
    ensures
        r.0 as int == ceil_div(current as int * slots as int, total as int),
        r.1 == slots - r.0,
        0 <= r.0 <= slots,
{
    let c: u64 = current as u64;
    let s: u64 = slots as u64;
    let t: u64 = total as u64;
    proof {
        let ci: int = c as int;
        let si: int = s as int;
        let ti: int = t as int;
        assert(0 <= ci * si <= 2_147_483_647int * 2_147_483_647) by (nonlinear_arith)
            requires
                0 <= ci <= 2_147_483_647int,
                0 <= si <= 2_147_483_647int,
        ;
        assert(0 <= ti * si <= 2_147_483_647int * 2_147_483_647) by (nonlinear_arith)
            requires
                0 <= ti <= 2_147_483_647int,
                0 <= si <= 2_147_483_647int,
        ;
        assert(ci * si <= ti * si) by (nonlinear_arith)
            requires
                ci <= ti,
                0 <= si,
        ;
        assert(ti * si == si * ti) by (nonlinear_arith);
        vstd::arithmetic::div_mod::lemma_fundamental_div_mod_converse_div(
            ti * si + (ti - 1),
            ti,
            si,
            ti - 1,
        );
        vstd::arithmetic::div_mod::lemma_div_is_ordered(
            ci * si + (ti - 1),
            ti * si + (ti - 1),
            ti,
        );
    }
    let units: u64 = (c * s + (t - 1)) / t;
    let filled: i32 = units as i32;
    (filled, slots - filled)
}

} // verus!
