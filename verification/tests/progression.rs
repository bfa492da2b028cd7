use rpg_core::Character;
use rpg_core::Class;
use rpg_core::ExpectedValueRandomizer;
use rpg_core::Randomizer;
use rpg_core::SeededRandomizer;

#[test]
fn test_player_and_enemy_factories() {
    let hero = Character::player();
    assert!(hero.is_player());
    assert_eq!("hero", hero.name);
    assert_eq!(1, hero.level);
    assert_eq!(0, hero.xp);
    assert_eq!(25, hero.max_hp);
    assert_eq!(25, hero.current_hp);
    assert_eq!(10, hero.strength);
    assert_eq!(5, hero.speed);

    let rng = ExpectedValueRandomizer;
    let foe = Character::enemy(1, &rng);
    assert!(!foe.is_player());
    assert_eq!("enemy", foe.name);
    assert_eq!(1, foe.level);
    assert_eq!(20, foe.max_hp);
    assert_eq!(20, foe.current_hp);
    assert_eq!(10, foe.strength);
    assert_eq!(3, foe.speed);

    // stats at level 3 are those of two sequential level-ups from base
    let strong = Character::enemy(3, &rng);
    assert_eq!(3, strong.level);
    assert_eq!(34, strong.max_hp);
    assert_eq!(34, strong.current_hp);
    assert_eq!(12, strong.strength);
    assert_eq!(3, strong.speed);
}

#[test]
fn test_increase_level_keeps_absolute_damage() {
    let rng = ExpectedValueRandomizer;
    let mut hero = Character::new(Class::Test, "hero", 1, &ExpectedValueRandomizer);
    hero.max_hp = 20;
    hero.current_hp = 13;
    hero.strength = 10;
    hero.speed = 5;

    hero.increase_level(&rng);
    assert_eq!(2, hero.level);
    assert_eq!(26, hero.max_hp);
    assert_eq!(19, hero.current_hp);
    assert_eq!(11, hero.strength);
    assert_eq!(6, hero.speed);
}

#[test]
fn test_add_experience_exact_threshold() {
    let rng = ExpectedValueRandomizer;
    let mut hero = Character::new(Class::Test, "hero", 1, &ExpectedValueRandomizer);

    // adding exactly the threshold levels up once and leaves no carryover
    let level_up = hero.add_experience(30, &rng);
    assert!(level_up);
    assert_eq!(2, hero.level);
    assert_eq!(0, hero.xp);

    // one point short of the next threshold does nothing
    let level_up = hero.add_experience(83, &rng);
    assert!(!level_up);
    assert_eq!(2, hero.level);
    assert_eq!(83, hero.xp);

    // the final point triggers the level-up, again with no carryover
    let level_up = hero.add_experience(1, &rng);
    assert!(level_up);
    assert_eq!(3, hero.level);
    assert_eq!(0, hero.xp);
}

#[test]
fn test_receive_damage_and_heal() {
    let rng = ExpectedValueRandomizer;
    let mut hero = Character::new(Class::Test, "hero", 1, &rng);
    assert_eq!(25, hero.max_hp);

    hero.receive_damage(10);
    assert_eq!(15, hero.current_hp);
    assert!(!hero.is_dead());

    // damage past zero stops at zero
    hero.receive_damage(100);
    assert_eq!(0, hero.current_hp);
    assert!(hero.is_dead());

    let recovered = hero.heal();
    assert_eq!(25, recovered);
    assert_eq!(hero.max_hp, hero.current_hp);
    assert!(!hero.is_dead());

    // healing at full health recovers nothing
    let recovered = hero.heal();
    assert_eq!(0, recovered);
}

#[test]
fn test_damage_floor() {
    let rng = ExpectedValueRandomizer;
    let mut hero = Character::new(Class::Test, "hero", 1, &rng);
    let mut foe = Character::new(Class::Test, "foe", 1, &rng);

    // a huge level gap drives the raw damage negative, but the result
    // never falls under a tenth of the attacker's strength, rounded up
    hero.strength = 10;
    foe.level = 20;
    assert_eq!(1, hero.damage(&foe, &rng));

    hero.strength = 15;
    assert_eq!(2, hero.damage(&foe, &rng));
}

#[test]
fn test_xp_gained_truncates_to_zero() {
    let hero = Character::new(Class::Test, "hero", 1, &ExpectedValueRandomizer);
    let mut foe = Character::new(Class::Test, "foe", 1, &ExpectedValueRandomizer);

    // punching down: 10 / (1 + 5) truncates
    foe.level = 6;
    assert_eq!(1, foe.xp_gained(&hero, 10));

    // a wide enough gap legitimately yields zero experience
    foe.level = 12;
    assert_eq!(0, foe.xp_gained(&hero, 10));
}

#[test]
fn test_xp_for_next_increases() {
    let rng = ExpectedValueRandomizer;
    let mut hero = Character::new(Class::Test, "hero", 1, &rng);
    let mut previous: i32 = 0;
    for _ in 0..20 {
        let next = hero.xp_for_next();
        assert!(previous < next);
        previous = next;
        hero.increase_level(&rng);
    }
}

#[test]
fn test_seeded_randomizer_bounds() {
    for seed in 0..50u64 {
        let rng = SeededRandomizer { seed };

        // growth stays between the old value and twice the nominal rate
        let grown = rng.stat(10, 10);
        assert!((10..=12).contains(&grown));

        // a damage roll lands between 3/4 and 5/4 of its base
        let roll = rng.damage(20);
        assert!((15..=30).contains(&roll));

        // same seed, same outcome
        assert_eq!(grown, rng.stat(10, 10));
        assert_eq!(roll, rng.damage(20));

        // the combat formula keeps its floor whatever the roll
        let mut hero = Character::new(Class::Test, "hero", 1, &rng);
        let mut foe = Character::new(Class::Test, "foe", 1, &rng);
        hero.strength = 10;
        foe.level = 30;
        assert_eq!(1, hero.damage(&foe, &rng));
        foe.level = 1;
        assert!(hero.damage(&foe, &rng) >= 1);
    }
}
