use rpg_core::Character;
use rpg_core::Class;
use rpg_core::ExpectedValueRandomizer;

fn new_char() -> Character {
    Character::new(Class::Test, "hero", 1, &ExpectedValueRandomizer)
}

#[test]
fn test_new() {
    let hero = new_char();

    assert_eq!(1, hero.level);
    assert_eq!(0, hero.xp);

    let params = Class::Test.params();
    assert_eq!(params.start_hp, hero.current_hp);
    assert_eq!(params.start_hp, hero.max_hp);
    assert_eq!(params.start_strength, hero.strength);
    assert_eq!(params.start_speed, hero.speed);
}

#[test]
fn test_increase_level() {
    let rng = ExpectedValueRandomizer;
    let mut hero = new_char();

    let params = Class::Test.params();
    // assert what we're assuming are the params in the rest of the test
    assert_eq!(30, params.hp_rate);
    assert_eq!(10, params.strength_rate);
    assert_eq!(10, params.speed_rate);

    hero.max_hp = 20;
    hero.current_hp = 20;
    hero.strength = 10;
    hero.speed = 5;

    hero.increase_level(&rng);
    assert_eq!(2, hero.level);
    assert_eq!(26, hero.max_hp);
    assert_eq!(11, hero.strength);
    assert_eq!(6, hero.speed);

    let damage: i32 = 7;
    hero.current_hp -= damage;

    hero.increase_level(&rng);
    assert_eq!(3, hero.level);
    assert_eq!(hero.current_hp, hero.max_hp - damage);
}

#[test]
fn test_damage() {
    let rng = ExpectedValueRandomizer;
    let mut hero = new_char();
    let mut foe = new_char();

    // 1 vs 1 -- no level-based effect
    hero.strength = 10;
    foe.strength = 10;
    assert_eq!(10, hero.damage(&foe, &rng));

    // level 1 vs level 2
    foe.level = 2;
    foe.strength = 15;
    assert_eq!(9, hero.damage(&foe, &rng));

    // level 2 vs level 1
    assert_eq!(15, foe.damage(&hero, &rng));

    // level 1 vs level 5
    foe.level = 5;
    foe.strength = 40;
    assert_eq!(6, hero.damage(&foe, &rng));

    // level 5 vs level 1
    assert_eq!(48, foe.damage(&hero, &rng));
}

#[test]
fn test_xp_gained() {
    let hero = new_char();
    let mut foe = new_char();
    let damage: i32 = 10;

    // 1 vs 1 -- no level-based effect
    let xp = hero.xp_gained(&foe, damage);
    assert_eq!(damage, xp);

    // level 1 vs level 2
    foe.level = 2;
    let xp = hero.xp_gained(&foe, damage);
    assert_eq!(2 * damage, xp);

    // level 2 vs level 1
    let xp = foe.xp_gained(&hero, damage);
    assert_eq!(damage / 2, xp);

    // level 1 vs level 5
    foe.level = 5;
    let xp = hero.xp_gained(&foe, damage);
    assert_eq!(5 * damage, xp);

    // level 5 vs level 1
    let xp = foe.xp_gained(&hero, damage);
    assert_eq!(damage / 5, xp);
}

#[test]
fn test_xp_for_next() {
    let rng = ExpectedValueRandomizer;
    let mut hero = new_char();
    assert_eq!(30, hero.xp_for_next());
    hero.increase_level(&rng);
    assert_eq!(84, hero.xp_for_next());
    hero.increase_level(&rng);
    assert_eq!(155, hero.xp_for_next());
}

#[test]
fn test_add_experience() {
    let rng = ExpectedValueRandomizer;
    let mut hero = new_char();
    assert_eq!(1, hero.level);
    assert_eq!(0, hero.xp);

    let level_up = hero.add_experience(20, &rng);
    assert!(!level_up);
    assert_eq!(1, hero.level);
    assert_eq!(20, hero.xp);

    let level_up = hero.add_experience(25, &rng);
    assert!(level_up);
    assert_eq!(2, hero.level);
    assert_eq!(15, hero.xp);
}
