//! Character progression and combat resolution for a turn-based
//! role-playing game.
//!
//! A character owns its level, experience, hit points and combat stats.
//! Leveling up rolls new stats through an injected randomizer, so the
//! growth rules can be exercised with a deterministic stand-in; the combat
//! formulas (damage output, experience gained) are exact integer arithmetic
//! with contracts that pin down every result.

pub mod character;
pub mod class;
pub mod display;
pub mod math;
pub mod randomizer;

pub use character::Character;
pub use class::Class;
pub use class::Parameters;
pub use display::bar_slots;
pub use randomizer::ExpectedValueRandomizer;
pub use randomizer::Randomizer;
pub use randomizer::SeededRandomizer;
