//! The randomization service that stat growth and damage rolls go through.
//!
//! Randomness is an injected capability: character operations take any
//! implementation of [`Randomizer`], so a deterministic stand-in can be
//! substituted for reproducible play and testing. Each implementation
//! exposes, as spec functions, exactly what its rolls return, and every
//! implementation promises that a stat roll never regresses the stat.

use vstd::prelude::*;

verus! {

/// A source of stat-growth and damage rolls.
///
/// `stat_spec` and `damage_spec` name, per implementation, the value each
/// roll returns, so that callers' contracts stay exact. An implementation
/// is a function of its own state and its arguments; variety between runs
/// comes from how the implementation is seeded, not from hidden state.
pub trait Randomizer {
    /// What `stat` returns, as a function of the randomizer and its
    /// arguments.
    spec fn stat_spec(&self, current: int, rate_pct: int) -> int;

    /// What `damage` returns, as a function of the randomizer and its
    /// argument.
    spec fn damage_spec(&self, base: int) -> int;

    /// A new value for a stat that currently stands at `current`, grown by
    /// about `rate_pct` percent. The roll may vary, but never below the
    /// current value: stats do not regress on a level-up.
    fn stat(&self, current: i32, rate_pct: u32) -> (r: i32)
        requires
            0 <= current,
            rate_pct <= 100,
        ensures
            r as int == self.stat_spec(current as int, rate_pct as int),
            current <= r,
    ;

    /// A damage roll centered on `base`. The result may fall below `base`;
    /// the combat formula clamps it from below.
    fn damage(&self, base: i32) -> (r: i32)
        ensures
            r as int == self.damage_spec(base as int),
    ;
}

/// The deterministic randomizer: every roll returns its exact expected
/// value. A stat grows to `current * (1 + rate_pct / 100)`, rounded half
/// up and saturated at `i32::MAX`; a damage roll returns its base
/// unchanged.
pub struct ExpectedValueRandomizer;

impl Randomizer for ExpectedValueRandomizer {
    open spec fn stat_spec(&self, current: int, rate_pct: int) -> int {
        let grown = (current * (100 + rate_pct) + 50) / 100;
        if grown > i32::MAX {
            i32::MAX as int
        } else {
            grown
        }
    }

    open spec fn damage_spec(&self, base: int) -> int {
        base
    }

    fn stat(&self, current: i32, rate_pct: u32) -> (r: i32) {
        proof {
            assert(0 <= (current as int) * (100 + rate_pct as int) <= 2_147_483_647int * 200)
                by (nonlinear_arith)
                requires
                    0 <= current as int <= 2_147_483_647int,
                    0 <= rate_pct as int <= 100,
            ;
            assert(100 * (current as int) <= (current as int) * (100 + rate_pct as int))
                by (nonlinear_arith)
                requires
                    0 <= current as int,
                    0 <= rate_pct as int,
            ;
        }
        let scaled: i64 = (current as i64) * (100 + rate_pct as i64);
        let grown: u64 = ((scaled as u64) + 50) / 100;
        proof {
            vstd::arithmetic::div_mod::lemma_div_is_ordered(
                100 * (current as int),
                scaled as int + 50,
                100,
            );
            vstd::arithmetic::div_mod::lemma_div_by_multiple(current as int, 100);
        }
        if grown > i32::MAX as u64 {
            i32::MAX
        } else {
            grown as i32
        }
    }

    fn damage(&self, base: i32) -> (r: i32) {
        base
    }
}

/// Scramble a seed and two arguments into a pseudo-random word, by xor
/// folding and a xorshift round.
pub open spec fn scramble_spec(seed: u64, a: u64, b: u64) -> u64 {
    let x0 = seed ^ (a << 21) ^ b;
    let x1 = x0 ^ (x0 << 13);
    let x2 = x1 ^ (x1 >> 7);
    x2 ^ (x2 << 17)
}

fn scramble(seed: u64, a: u64, b: u64) -> (r: u64)
    ensures
        r == scramble_spec(seed, a, b),
{
    let x0: u64 = seed ^ (a << 21) ^ b;
    let x1: u64 = x0 ^ (x0 << 13);
    let x2: u64 = x1 ^ (x1 >> 7);
    x2 ^ (x2 << 17)
}

/// A seeded randomizer with bounded variance: a stat roll applies a
/// pseudo-random growth percentage between zero and twice the nominal
/// rate (so the nominal rate on average over seeds), and a damage roll
/// lands between three quarters and five quarters of its base. Rolls are
/// a function of the seed and the arguments, so a given seed replays the
/// same outcomes.
#[derive(Clone, Copy, Debug)]
pub struct SeededRandomizer {
    pub seed: u64,
}

impl Randomizer for SeededRandomizer {
    open spec fn stat_spec(&self, current: int, rate_pct: int) -> int {
        let applied = scramble_spec(self.seed, current as u64, rate_pct as u64) as int % (2
            * rate_pct + 1);
        let grown = (current * (100 + applied) + 50) / 100;
        if grown > i32::MAX {
            i32::MAX as int
        } else {
            grown
        }
    }

    open spec fn damage_spec(&self, base: int) -> int {
        if base <= 0 {
            base
        } else {
            let b = base as u64;
            let offset = (scramble_spec(self.seed, b, 77) as int) % ((b as int) / 2 + 1);
            let roll = base - (b as int) / 4 + offset;
            if roll > i32::MAX {
                i32::MAX as int
            } else {
                roll
            }
        }
    }

    fn stat(&self, current: i32, rate_pct: u32) -> (r: i32) {
        let h: u64 = scramble(self.seed, current as u64, rate_pct as u64);
        let applied: u64 = h % (2 * (rate_pct as u64) + 1);
        proof {
            vstd::arithmetic::div_mod::lemma_mod_bound(h as int, 2 * (rate_pct as int) + 1);
            assert(0 <= (current as int) * (100 + applied as int) <= 2_147_483_647int * 301)
                by (nonlinear_arith)
                requires
                    0 <= current as int <= 2_147_483_647int,
                    0 <= applied as int <= 200,
            ;
            assert(100 * (current as int) <= (current as int) * (100 + applied as int))
                by (nonlinear_arith)
                requires
                    0 <= current as int,
                    0 <= applied as int,
            ;
        }
        let scaled: i64 = (current as i64) * (100 + applied as i64);
        let grown: u64 = ((scaled as u64) + 50) / 100;
        proof {
            vstd::arithmetic::div_mod::lemma_div_is_ordered(
                100 * (current as int),
                scaled as int + 50,
                100,
            );
            vstd::arithmetic::div_mod::lemma_div_by_multiple(current as int, 100);
        }
        if grown > i32::MAX as u64 {
            i32::MAX
        } else {
            grown as i32
        }
    }

    fn damage(&self, base: i32) -> (r: i32) {
        if base <= 0 {
            base
        } else {
            let b: u64 = base as u64;
            let h: u64 = scramble(self.seed, b, 77);
            let offset: u64 = h % (b / 2 + 1);
            proof {
                vstd::arithmetic::div_mod::lemma_mod_bound(h as int, (b / 2 + 1) as int);
            }
            let roll: i64 = (base as i64) - ((b / 4) as i64) + (offset as i64);
            if roll > i32::MAX as i64 {
                i32::MAX
            } else {
                roll as i32
            }
        }
    }
}

} // verus!
