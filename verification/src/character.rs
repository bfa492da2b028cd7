//! The character entity: level, experience, hit points and combat stats,
//! with the leveling and combat-resolution rules.

use vstd::prelude::*;

use crate::class::Class;
use crate::randomizer::Randomizer;

verus! {

/// The highest level the experience curve is defined for. It keeps every
/// experience computation inside `i32`: the threshold for the next level
/// grows with `level^1.5` and would otherwise outgrow the type.
pub const MAX_LEVEL: i32 = 100_000;

/// A stateful game character. Constructed once through an archetype-bound
/// factory, then mutated in place by experience gain, leveling, damage and
/// healing. Combat reads the counterpart character but never mutates it.
#[derive(Debug)]
pub struct Character {
    pub class: Class,
    pub name: String,

    pub level: i32,
    pub xp: i32,

    pub max_hp: i32,
    pub current_hp: i32,

    pub strength: i32,
    pub speed: i32,
}

/// Experience required to move from `level` to the next one:
/// floor(30 * level^1.5). Since (30 * level^1.5)^2 == 900 * level^3, this
/// is exactly the integer square root of 900 * level^3.
pub open spec fn xp_threshold(level: int) -> int {
    crate::math::sqrt_floor((900 * (level * level * level)) as nat) as int
}

/// The stat value reached after `times` level-ups from `base`, each one
/// rolled through `rng` at `rate_pct` percent growth.
pub open spec fn grown_stat<R: Randomizer>(rng: R, base: int, rate_pct: int, times: nat) -> int
    decreases times,
{
    if times == 0 {
        base
    } else {
        rng.stat_spec(grown_stat(rng, base, rate_pct, (times - 1) as nat), rate_pct)
    }
}

/// How `post` relates to `pre` across one level-up rolled through `rng`:
/// the level rises by one, each stat is the randomizer's roll over the old
/// value at the archetype's growth rate, and the hit-point growth keeps
/// the absolute damage (not the percentage) the character had taken.
/// Experience is accounted separately by the caller.
pub open spec fn level_up_step<R: Randomizer>(pre: Character, post: Character, rng: R) -> bool {
    let p = pre.class.params_spec();
    &&& post.class == pre.class
    &&& post.name == pre.name
    &&& post.level == pre.level + 1
    &&& post.strength as int == rng.stat_spec(pre.strength as int, p.strength_rate as int)
    &&& post.speed as int == rng.stat_spec(pre.speed as int, p.speed_rate as int)
    &&& post.max_hp as int == rng.stat_spec(pre.max_hp as int, p.hp_rate as int)
    &&& post.max_hp - post.current_hp == pre.max_hp - pre.current_hp
}

/// The lower bound of the damage formula: a tenth of the attacker's
/// strength, rounded up.
pub open spec fn min_damage(strength: int) -> int {
    (strength + 9) / 10
}

/// The deterministic part of the damage formula, before the randomized
/// roll: the attacker's strength plus the level-difference effect,
/// truncated toward zero. A weaker attacker (lower level than the
/// receiver) takes the full, unattenuated penalty; an equal or stronger
/// attacker gets the halved bonus.
pub open spec fn raw_damage(strength: int, level: int, receiver_level: int) -> int {
    if level < receiver_level {
        let gap = receiver_level - level;
        if gap <= 10 {
            (strength * (10 - gap)) / 10
        } else {
            -((strength * (gap - 10)) / 10)
        }
    } else {
        (strength * (20 + level - receiver_level)) / 20
    }
}

/// Saturate an integer into the range of `i32`.
pub open spec fn clamp_i32(x: int) -> int {
    if x < i32::MIN {
        i32::MIN as int
    } else if x > i32::MAX {
        i32::MAX as int
    } else {
        x
    }
}

/// Experience gained by dealing `damage` across a level gap: a bonus
/// multiplier for attacking up, an integer-division penalty (possibly to
/// zero) for attacking down.
pub open spec fn xp_gained_spec(level: int, receiver_level: int, damage: int) -> int {
    if receiver_level > level {
        damage * (1 + receiver_level - level)
    } else {
        damage / (1 + level - receiver_level)
    }
}

impl Character {
    /// The invariant of every character: a positive level, non-negative
    /// accumulated experience, positive maximum hit points, current hit
    /// points between zero and the maximum, and positive combat stats.
    /// Constructors establish it and every operation preserves it.
    pub open spec fn wf(self) -> bool {
        &&& 1 <= self.level
        &&& 0 <= self.xp
        &&& 1 <= self.max_hp
        &&& 0 <= self.current_hp <= self.max_hp
        &&& 1 <= self.strength
        &&& 1 <= self.speed
    }

    /// Construct a level-1 character of the player archetype, at full
    /// health on the hero's base stats.
    pub fn player() -> (c: Character)
        ensures
            c.wf(),
            c.class == Class::Hero,
            c.name@ == "hero"@,
            c.level == 1,
            c.xp == 0,
            c.max_hp == Class::Hero.params_spec().start_hp,
            c.current_hp == c.max_hp,
            c.strength == Class::Hero.params_spec().start_strength,
            c.speed == Class::Hero.params_spec().start_speed,
    {
        let params = Class::Hero.params();
        Character {
            class: Class::Hero,
            name: "hero".to_owned(),
            level: 1,
            xp: 0,
            max_hp: params.start_hp,
            current_hp: params.start_hp,
            strength: params.start_strength,
            speed: params.start_speed,
        }
    }

    /// Construct a character of the enemy archetype at the given level, by
    /// replaying `level - 1` level-up transitions from the base stats.
    pub fn enemy<R: Randomizer>(level: i32, rng: &R) -> (c: Character)
        requires
            1 <= level,
        ensures
            c.wf(),
            c.class == Class::Enemy,
            c.name@ == "enemy"@,
            c.level == level,
            c.xp == 0,
            c.current_hp == c.max_hp,
            c.strength as int == grown_stat(
                *rng,
                Class::Enemy.params_spec().start_strength as int,
                Class::Enemy.params_spec().strength_rate as int,
                (level - 1) as nat,
            ),
            c.speed as int == grown_stat(
                *rng,
                Class::Enemy.params_spec().start_speed as int,
                Class::Enemy.params_spec().speed_rate as int,
                (level - 1) as nat,
            ),
            c.max_hp as int == grown_stat(
                *rng,
                Class::Enemy.params_spec().start_hp as int,
                Class::Enemy.params_spec().hp_rate as int,
                (level - 1) as nat,
            ),
    {
        Self::new(Class::Enemy, "enemy", level, rng)
    }

    /// Whether this character is the player-controlled hero.
    pub fn is_player(&self) -> (r: bool)
        ensures
            r == (self.class == Class::Hero),
    {
        matches!(self.class, Class::Hero)
    }

    /// Construct a character of the given archetype at the given level.
    /// Stats at level N are produced by N - 1 sequential level-ups from
    /// the base stats, each rolled through `rng`; a character built this
    /// way is at full health.
    pub fn new<R: Randomizer>(class: Class, name: &str, level: i32, rng: &R) -> (c: Character)
        requires
            1 <= level,
        ensures
            c.wf(),
            c.class == class,
            c.name@ == name@,
            c.level == level,
            c.xp == 0,
            c.current_hp == c.max_hp,
            c.strength as int == grown_stat(
                *rng,
                class.params_spec().start_strength as int,
                class.params_spec().strength_rate as int,
                (level - 1) as nat,
            ),
            c.speed as int == grown_stat(
                *rng,
                class.params_spec().start_speed as int,
                class.params_spec().speed_rate as int,
                (level - 1) as nat,
            ),
            c.max_hp as int == grown_stat(
                *rng,
                class.params_spec().start_hp as int,
                class.params_spec().hp_rate as int,
                (level - 1) as nat,
            ),
    {
        let params = class.params();
        let mut character = Character {
            class,
            name: name.to_owned(),
            level: 1,
            xp: 0,
            max_hp: params.start_hp,
            current_hp: params.start_hp,
            strength: params.start_strength,
            speed: params.start_speed,
        };
        let mut i: i32 = 1;
        while i < level
            invariant
                1 <= i <= level,
                character.wf(),
                character.class == class,
                character.name@ == name@,
                character.level == i,
                character.xp == 0,
                character.current_hp == character.max_hp,
                character.strength as int == grown_stat(
                    *rng,
                    class.params_spec().start_strength as int,
                    class.params_spec().strength_rate as int,
                    (i - 1) as nat,
                ),
                character.speed as int == grown_stat(
                    *rng,
                    class.params_spec().start_speed as int,
                    class.params_spec().speed_rate as int,
                    (i - 1) as nat,
                ),
                character.max_hp as int == grown_stat(
                    *rng,
                    class.params_spec().start_hp as int,
                    class.params_spec().hp_rate as int,
                    (i - 1) as nat,
                ),
            decreases level - i,
        {
            character.increase_level(rng);
            i = i + 1;
        }
        character
    }

    /// Raise the level and roll all the stats upward. Strength, speed and
    /// maximum hit points each grow through the randomizer at the
    /// archetype's rate and never regress; hit-point growth preserves the
    /// absolute damage the character had taken, so a character at full
    /// health stays at full health.
    pub fn increase_level<R: Randomizer>(&mut self, rng: &R)
        requires
            old(self).wf(),
            old(self).level < i32::MAX,
        ensures
            final(self).wf(),
            level_up_step(*old(self), *final(self), *rng),
            final(self).xp == old(self).xp,
            old(self).strength <= final(self).strength,
            old(self).speed <= final(self).speed,
            old(self).max_hp <= final(self).max_hp,
            old(self).current_hp == old(self).max_hp
                ==> final(self).current_hp == final(self).max_hp,
    {
        let params = self.class.params();

        self.level = self.level + 1;
        self.strength = rng.stat(self.strength, params.strength_rate);
        self.speed = rng.stat(self.speed, params.speed_rate);

        // hit-point growth must not erase damage already taken
        let previous_damage: i32 = self.max_hp - self.current_hp;
        self.max_hp = rng.stat(self.max_hp, params.hp_rate);
        self.current_hp = self.max_hp - previous_damage;
    }

    /// Add to the accumulated experience points, leveling up (at most
    /// once, with the carryover retained) when the total reaches the
    /// threshold of the level in effect when the points were added.
    pub fn add_experience<R: Randomizer>(&mut self, xp: i32, rng: &R) -> (leveled_up: bool)
        requires
            old(self).wf(),
            0 <= xp,
            old(self).xp + xp <= i32::MAX,
            old(self).level <= MAX_LEVEL,
        ensures
            final(self).wf(),
            leveled_up == (old(self).xp + xp >= xp_threshold(old(self).level as int)),
            !leveled_up ==> (final(self).class == old(self).class
                && final(self).name == old(self).name
                && final(self).level == old(self).level
                && final(self).xp == old(self).xp + xp
                && final(self).max_hp == old(self).max_hp
                && final(self).current_hp == old(self).current_hp
                && final(self).strength == old(self).strength
                && final(self).speed == old(self).speed),
            leveled_up ==> level_up_step(*old(self), *final(self), *rng),
            leveled_up ==> final(self).xp as int
                == old(self).xp + xp - xp_threshold(old(self).level as int),
            leveled_up ==> (old(self).strength <= final(self).strength
                && old(self).speed <= final(self).speed
                && old(self).max_hp <= final(self).max_hp),
    {
        self.xp = self.xp + xp;
        let for_next = self.xp_for_next();
        if self.xp >= for_next {
            self.increase_level(rng);
            self.xp = self.xp - for_next;
            true
        } else {
            false
        }
    }

    /// Subtract damage from the current hit points, stopping at zero.
    pub fn receive_damage(&mut self, damage: i32)
        requires
            old(self).wf(),
            0 <= damage,
        ensures
            final(self).wf(),
            final(self).current_hp as int == vstd::math::max(
                0,
                old(self).current_hp - damage,
            ),
            final(self).class == old(self).class,
            final(self).name == old(self).name,
            final(self).level == old(self).level,
            final(self).xp == old(self).xp,
            final(self).max_hp == old(self).max_hp,
            final(self).strength == old(self).strength,
            final(self).speed == old(self).speed,
    {
        if damage <= self.current_hp {
            self.current_hp = self.current_hp - damage;
        } else {
            self.current_hp = 0;
        }
    }

    /// Whether the character has no hit points left.
    pub fn is_dead(&self) -> (r: bool)
        ensures
            r == (self.current_hp == 0),
    {
        self.current_hp == 0
    }

    /// Restore the current hit points to the maximum and report how much
    /// was recovered.
    pub fn heal(&mut self) -> (recovered: i32)
        requires
            old(self).wf(),
        ensures
            final(self).wf(),
            final(self).current_hp == final(self).max_hp,
            recovered == old(self).max_hp - old(self).current_hp,
            final(self).class == old(self).class,
            final(self).name == old(self).name,
            final(self).level == old(self).level,
            final(self).xp == old(self).xp,
            final(self).max_hp == old(self).max_hp,
            final(self).strength == old(self).strength,
            final(self).speed == old(self).speed,
    {
        let recovered: i32 = self.max_hp - self.current_hp;
        self.current_hp = self.max_hp;
        recovered
    }

    /// How many experience points are required to move to the next level.
    pub fn xp_for_next(&self) -> (r: i32)
        requires
            self.wf(),
            self.level <= MAX_LEVEL,
        ensures
            r as int == xp_threshold(self.level as int),
    {
        let l: u64 = self.level as u64;
        proof {
            assert(l * l <= 100_000u64 * 100_000) by (nonlinear_arith)
                requires
                    1 <= l <= 100_000,
            ;
            assert(l * l * l <= 100_000u64 * 100_000 * 100_000) by (nonlinear_arith)
                requires
                    1 <= l <= 100_000,
            ;
        }
        let n: u64 = 900 * ((l * l) * l);
        let r: u64 = crate::math::isqrt(n);
        proof {
            assert(n as int == 900 * ((self.level as int * self.level as int)
                * self.level as int));
        }
        r as i32
    }

    /// Compute a randomized damage number against `receiver`, based on the
    /// attacker's strength and the level difference: never less than a
    /// tenth of the attacker's strength, rounded up.
    pub fn damage<R: Randomizer>(&self, receiver: &Self, rng: &R) -> (r: i32)
        requires
            self.wf(),
            receiver.wf(),
        ensures
            r as int == vstd::math::max(
                min_damage(self.strength as int),
                rng.damage_spec(
                    clamp_i32(
                        raw_damage(
                            self.strength as int,
                            self.level as int,
                            receiver.level as int,
                        ),
                    ),
                ),
            ),
            min_damage(self.strength as int) <= r as int,
    {
        let s: u64 = self.strength as u64;
        let raw: i64 = if self.level < receiver.level {
            let gap: u64 = ((receiver.level as i64) - (self.level as i64)) as u64;
            if gap <= 10 {
                proof {
                    assert(s * (10 - gap) <= 2_147_483_647u64 * 10) by (nonlinear_arith)
                        requires
                            s <= 2_147_483_647u64,
                            gap <= 10,
                    ;
                }
                ((s * (10 - gap)) / 10) as i64
            } else {
                proof {
                    assert(s * (gap - 10) <= 2_147_483_647u64 * 2_147_483_647) by (nonlinear_arith)
                        requires
                            s <= 2_147_483_647u64,
                            gap <= 2_147_483_647u64,
                    ;
                }
                let q: u64 = (s * (gap - 10)) / 10;
                proof {
                    vstd::arithmetic::div_mod::lemma_div_is_ordered(
                        q as int * 10,
                        2_147_483_647int * 2_147_483_647,
                        10,
                    );
                }
                -(q as i64)
            }
        } else {
            let gap: u64 = ((self.level as i64) - (receiver.level as i64)) as u64;
            proof {
                assert(s * (20 + gap) <= 2_147_483_647u64 * (20 + 2_147_483_647)) by (
                nonlinear_arith)
                    requires
                        s <= 2_147_483_647u64,
                        gap <= 2_147_483_647u64,
                ;
            }
            ((s * (20 + gap)) / 20) as i64
        };
        let base: i32 = if raw > i32::MAX as i64 {
            i32::MAX
        } else if raw < i32::MIN as i64 {
            i32::MIN
        } else {
            raw as i32
        };
        let roll: i32 = rng.damage(base);
        let floor_roll: i32 = (((self.strength as u64) + 9) / 10) as i32;
        if floor_roll >= roll {
            floor_roll
        } else {
            roll
        }
    }

    /// How many experience points are gained by inflicting `damage` on
    /// `receiver`: multiplied when punching up, divided (possibly to
    /// zero) when punching down.
    pub fn xp_gained(&self, receiver: &Self, damage: i32) -> (r: i32)
        requires
            self.wf(),
            receiver.wf(),
            0 <= damage,
            receiver.level > self.level ==> damage * (1 + receiver.level - self.level)
                <= i32::MAX,
        ensures
            r as int == xp_gained_spec(self.level as int, receiver.level as int, damage as int),
    {
        if receiver.level > self.level {
            let mult: i64 = 1 + (receiver.level as i64) - (self.level as i64);
            proof {
                assert(0 <= damage * mult <= 2_147_483_647int * (1 + 2_147_483_647)) by (
                nonlinear_arith)
                    requires
                        0 <= damage <= 2_147_483_647int,
                        1 <= mult <= 1 + 2_147_483_647int,
                ;
            }
            ((damage as i64) * mult) as i32
        } else {
            let div: u64 = (1 + (self.level as i64) - (receiver.level as i64)) as u64;
            proof {
                vstd::arithmetic::div_mod::lemma_div_is_ordered(
                    damage as int,
                    2_147_483_647,
                    div as int,
                );
                vstd::arithmetic::div_mod::lemma_div_is_ordered_by_denominator(
                    damage as int,
                    1,
                    div as int,
                );
            }
            ((damage as u64) / div) as i32
        }
    }
}

/// The experience threshold is exactly floor(30 * level^1.5): its square
/// is at most 900 * level^3, and the next square is beyond it.
pub proof fn lemma_xp_threshold_bounds(level: int)
    requires
        1 <= level,
    ensures
        0 <= xp_threshold(level),
        xp_threshold(level) * xp_threshold(level) <= 900 * (level * level * level),
        900 * (level * level * level) < (xp_threshold(level) + 1) * (xp_threshold(level) + 1),
{
    let m: int = 900 * (level * level * level);
    assert(900 <= m) by (nonlinear_arith)
        requires
            m == 900 * (level * level * level),
            1 <= level,
    ;
    crate::math::lemma_sqrt_floor_is_sqrt(m as nat);
}

/// The experience curve is strictly increasing in the level.
pub proof fn lemma_xp_threshold_strictly_increasing(l1: int, l2: int)
    requires
        1 <= l1 < l2,
    ensures
        xp_threshold(l1) < xp_threshold(l2),
{
    let m1: int = 900 * (l1 * l1 * l1);
    let m2: int = 900 * (l2 * l2 * l2);
    assert(900 <= m1) by (nonlinear_arith)
        requires
            m1 == 900 * (l1 * l1 * l1),
            1 <= l1,
    ;
    assert(900 <= m2) by (nonlinear_arith)
        requires
            m2 == 900 * (l2 * l2 * l2),
            1 <= l2,
    ;
    crate::math::lemma_sqrt_floor_is_sqrt(m1 as nat);
    crate::math::lemma_sqrt_floor_is_sqrt(m2 as nat);
    let r1: int = crate::math::sqrt_floor(m1 as nat) as int;
    let r2: int = crate::math::sqrt_floor(m2 as nat) as int;
    assert(r1 * r1 <= m1 < (r1 + 1) * (r1 + 1));
    assert(r2 * r2 <= m2 < (r2 + 1) * (r2 + 1));
    assert(r1 <= 30 * (l1 * l1)) by (nonlinear_arith)
        requires
            m1 == 900 * (l1 * l1 * l1),
            1 <= l1,
            0 <= r1,
            r1 * r1 <= m1,
    ;
    assert((r1 + 1) * (r1 + 1) <= m1 + 60 * (l1 * l1) + 1) by (nonlinear_arith)
        requires
            r1 * r1 <= m1,
            0 <= r1 <= 30 * (l1 * l1),
    ;
    assert(m1 + 60 * (l1 * l1) + 1 <= m2) by (nonlinear_arith)
        requires
            m1 == 900 * (l1 * l1 * l1),
            m2 == 900 * (l2 * l2 * l2),
            1 <= l1,
            l1 + 1 <= l2,
    ;
    assert(r1 < r2) by (nonlinear_arith)
        requires
            (r1 + 1) * (r1 + 1) <= m2,
            m2 < (r2 + 1) * (r2 + 1),
            0 <= r1,
            0 <= r2,
    ;
}

/// Experience scaling by the level gap: equal levels hand the damage
/// through unchanged, an attacker one level below the receiver gains
/// double, and an attacker one level above gains half, truncated.
pub proof fn lemma_xp_gained_level_effects(level: int, receiver_level: int, damage: int)
    requires
        0 <= damage,
    ensures
        receiver_level == level ==> xp_gained_spec(level, receiver_level, damage) == damage,
        receiver_level == level + 1 ==> xp_gained_spec(level, receiver_level, damage) == 2
            * damage,
        level == receiver_level + 1 ==> xp_gained_spec(level, receiver_level, damage) == damage
            / 2,
{
    if receiver_level == level {
        vstd::arithmetic::div_mod::lemma_div_by_multiple(damage, 1);
        assert(damage * 1 == damage) by (nonlinear_arith);
    }
    if receiver_level == level + 1 {
        assert(damage * (1 + receiver_level - level) == 2 * damage) by (nonlinear_arith)
            requires receiver_level == level + 1;
    }
}

} // verus!
