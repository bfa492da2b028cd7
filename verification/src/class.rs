//! The closed set of character archetypes and their parameter table.

use vstd::prelude::*;

verus! {

/// The archetype of a character: the player-controlled hero, a generic
/// enemy, or the fixture archetype used by the test suite. The archetype
/// selects the base stats and growth rates of the character and never
/// changes after construction.
#[derive(Clone, Copy, Debug, PartialEq, Eq, Structural)]
pub enum Class {
    Hero,
    Enemy,
    Test,
}

/// Base stats and per-level growth rates of one archetype. The `_rate`
/// fields are percentages: a rate of 30 means the stat grows by about
/// thirty percent on each level-up.
#[derive(Clone, Copy, Debug, PartialEq, Eq, Structural)]
pub struct Parameters {
    pub start_hp: i32,
    pub start_strength: i32,
    pub start_speed: i32,
    pub hp_rate: u32,
    pub strength_rate: u32,
    pub speed_rate: u32,
}

impl Parameters {
    /// Every parameter record in the table satisfies this: positive base
    /// stats and growth rates of at most one hundred percent.
    pub open spec fn wf(self) -> bool {
        &&& 1 <= self.start_hp
        &&& 1 <= self.start_strength
        &&& 1 <= self.start_speed
        &&& self.hp_rate <= 100
        &&& self.strength_rate <= 100
        &&& self.speed_rate <= 100
    }
}

impl Class {
    /// The parameter record of this archetype, as a mathematical lookup.
    pub open spec fn params_spec(self) -> Parameters {
        match self {
            Class::Hero => Parameters {
                start_hp: 25,
                start_strength: 10,
                start_speed: 5,
                hp_rate: 30,
                strength_rate: 10,
                speed_rate: 10,
            },
            Class::Enemy => Parameters {
                start_hp: 20,
                start_strength: 10,
                start_speed: 3,
                hp_rate: 30,
                strength_rate: 10,
                speed_rate: 10,
            },
            Class::Test => Parameters {
                start_hp: 25,
                start_strength: 10,
                start_speed: 5,
                hp_rate: 30,
                strength_rate: 10,
                speed_rate: 10,
            },
        }
    }

    /// Look up the base stats and growth rates of this archetype. A pure
    /// lookup: every archetype has a defined parameter set and the same
    /// archetype always yields the same record.
    pub fn params(&self) -> (p: Parameters)
        ensures
            p == self.params_spec(),
            p.wf(),
    {
        match self {
            Class::Hero => Parameters {
                start_hp: 25,
                start_strength: 10,
                start_speed: 5,
                hp_rate: 30,
                strength_rate: 10,
                speed_rate: 10,
            },
            Class::Enemy => Parameters {
                start_hp: 20,
                start_strength: 10,
                start_speed: 3,
                hp_rate: 30,
                strength_rate: 10,
                speed_rate: 10,
            },
            Class::Test => Parameters {
                start_hp: 25,
                start_strength: 10,
                start_speed: 5,
                hp_rate: 30,
                strength_rate: 10,
                speed_rate: 10,
            },
        }
    }
}

} // verus!
