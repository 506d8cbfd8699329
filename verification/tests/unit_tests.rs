//! Tests of the unit stat and damage model.

use ranger_royale::unit::MAX_HEALTH;
use ranger_royale::unit::MAX_SECONDARY_STAT;
use ranger_royale::DamageType;
use ranger_royale::Protection;
use ranger_royale::Unit;
use ranger_royale::UnitError;

fn knight() -> Unit {
    Unit::new(
        "Knight".to_string(),
        100,
        30,
        20,
        15,
        10,
        5,
        Protection::Heavy,
        Protection::Light,
    )
    .unwrap()
}

#[test]
fn blocking_power_table() {
    assert_eq!(Protection::Light.blocking_power(), 20);
    assert_eq!(Protection::Medium.blocking_power(), 45);
    assert_eq!(Protection::Heavy.blocking_power(), 75);
    assert_eq!(Protection::SuperHeavy.blocking_power(), 95);
}

#[test]
fn protection_labels() {
    assert_eq!(Protection::Light.label(), "Light");
    assert_eq!(Protection::Medium.label(), "Medium");
    assert_eq!(Protection::Heavy.label(), "Heavy");
    assert_eq!(Protection::SuperHeavy.label(), "SuperHeavy");
}

#[test]
fn new_unit_validates_every_stat() {
    assert!(matches!(
        Unit::new("a".to_string(), 101, 0, 0, 0, 0, 0, Protection::Light, Protection::Light),
        Err(UnitError::StatTooHigh)
    ));
    assert!(matches!(
        Unit::new("a".to_string(), 100, 31, 0, 0, 0, 0, Protection::Light, Protection::Light),
        Err(UnitError::StatTooHigh)
    ));
    assert!(matches!(
        Unit::new("a".to_string(), 100, 0, 31, 0, 0, 0, Protection::Light, Protection::Light),
        Err(UnitError::StatTooHigh)
    ));
    assert!(matches!(
        Unit::new("a".to_string(), 100, 0, 0, 31, 0, 0, Protection::Light, Protection::Light),
        Err(UnitError::StatTooHigh)
    ));
    assert!(matches!(
        Unit::new("a".to_string(), 100, 0, 0, 0, 31, 0, Protection::Light, Protection::Light),
        Err(UnitError::StatTooHigh)
    ));
    assert!(matches!(
        Unit::new("a".to_string(), 100, 0, 0, 0, 0, 31, Protection::Light, Protection::Light),
        Err(UnitError::StatTooHigh)
    ));
    let u = knight();
    assert_eq!(u.name(), "Knight");
    assert_eq!(u.health(), 100);
    assert_eq!(u.stamina(), 30);
    assert_eq!(u.strength(), 20);
    assert_eq!(u.defense(), 15);
    assert_eq!(u.movement(), 10);
    assert_eq!(u.agility(), 5);
    assert_eq!(*u.armor(), Protection::Heavy);
    assert_eq!(*u.resistance(), Protection::Light);
}

#[test]
fn stat_setters_respect_caps() {
    let mut u = knight();
    assert!(u.set_strength(MAX_SECONDARY_STAT).is_ok());
    assert_eq!(u.strength(), 30);
    assert!(matches!(u.set_strength(31), Err(UnitError::StatTooHigh)));
    assert_eq!(u.strength(), 30);

    assert!(u.set_stamina(0).is_ok());
    assert_eq!(u.stamina(), 0);
    assert!(matches!(u.set_stamina(31), Err(UnitError::StatTooHigh)));

    assert!(u.set_defense(12).is_ok());
    assert_eq!(u.defense(), 12);
    assert!(matches!(u.set_defense(99), Err(UnitError::StatTooHigh)));

    assert!(u.set_movement(7).is_ok());
    assert_eq!(u.movement(), 7);
    assert!(matches!(u.set_movement(31), Err(UnitError::StatTooHigh)));

    assert!(u.set_health(MAX_HEALTH).is_ok());
    assert_eq!(u.health(), 100);
    assert!(matches!(u.set_health(101), Err(UnitError::StatTooHigh)));
    assert_eq!(u.health(), 100);
}

#[test]
fn stat_setters_reject_the_dead() {
    let mut u = knight();
    u.take_damage(100, DamageType::True).unwrap();
    assert_eq!(u.health(), 0);
    assert!(matches!(u.set_strength(1), Err(UnitError::UnitNotAlive)));
    assert!(matches!(u.set_stamina(1), Err(UnitError::UnitNotAlive)));
    assert!(matches!(u.set_defense(1), Err(UnitError::UnitNotAlive)));
    assert!(matches!(u.set_movement(1), Err(UnitError::UnitNotAlive)));
    assert!(matches!(u.set_health(50), Err(UnitError::UnitNotAlive)));
    assert!(matches!(u.heal_health(10), Err(UnitError::UnitNotAlive)));
    assert_eq!(u.strength(), 20);
    assert_eq!(u.stamina(), 30);
    assert_eq!(u.defense(), 15);
    assert_eq!(u.movement(), 10);
    assert_eq!(u.health(), 0);
}

#[test]
fn physical_damage_is_scaled_by_armor() {
    // Heavy armor: 50 * 75 / 100 = 37.
    let mut u = knight();
    u.take_damage(50, DamageType::Physical).unwrap();
    assert_eq!(u.health(), 63);

    // Light armor: 50 * 20 / 100 = 10.
    let mut v = Unit::new(
        "v".to_string(),
        100,
        0,
        0,
        0,
        0,
        0,
        Protection::Light,
        Protection::SuperHeavy,
    )
    .unwrap();
    v.take_damage(50, DamageType::Physical).unwrap();
    assert_eq!(v.health(), 90);

    // Medium armor truncates: 50 * 45 / 100 = 22.
    let mut w = Unit::new(
        "w".to_string(),
        100,
        0,
        0,
        0,
        0,
        0,
        Protection::Medium,
        Protection::Light,
    )
    .unwrap();
    w.take_damage(50, DamageType::Physical).unwrap();
    assert_eq!(w.health(), 78);
}

#[test]
fn elemental_damage_is_scaled_by_resistance() {
    // Light resistance: 50 * 20 / 100 = 10.
    let mut u = knight();
    u.take_damage(50, DamageType::Elemental).unwrap();
    assert_eq!(u.health(), 90);

    // SuperHeavy resistance: 60 * 95 / 100 = 57.
    let mut v = Unit::new(
        "v".to_string(),
        100,
        0,
        0,
        0,
        0,
        0,
        Protection::Light,
        Protection::SuperHeavy,
    )
    .unwrap();
    v.take_damage(60, DamageType::Elemental).unwrap();
    assert_eq!(v.health(), 43);
}

#[test]
fn true_damage_is_unscaled() {
    let mut u = knight();
    u.take_damage(37, DamageType::True).unwrap();
    assert_eq!(u.health(), 63);
}

#[test]
fn damage_saturates_at_zero_health() {
    let mut u = knight();
    u.set_health(10).unwrap();
    assert!(u.take_damage(1000, DamageType::True).is_ok());
    assert_eq!(u.health(), 0);

    let mut v = knight();
    v.set_health(10).unwrap();
    // Heavy armor: 20 * 75 / 100 = 15 >= 10, so health bottoms out at 0.
    assert!(v.take_damage(20, DamageType::Physical).is_ok());
    assert_eq!(v.health(), 0);
}

#[test]
fn damage_on_the_dead_fails_and_changes_nothing() {
    let mut u = knight();
    u.take_damage(100, DamageType::True).unwrap();
    assert_eq!(u.health(), 0);
    for _ in 0..3 {
        assert!(matches!(
            u.take_damage(10, DamageType::Physical),
            Err(UnitError::UnitNotAlive)
        ));
        assert_eq!(u.health(), 0);
        assert_eq!(u.strength(), 20);
        assert_eq!(u.name(), "Knight");
    }
}

#[test]
fn healing_saturates_at_the_cap() {
    let mut u = knight();
    u.set_health(95).unwrap();
    assert!(u.heal_health(10).is_ok());
    assert_eq!(u.health(), 100);

    u.set_health(50).unwrap();
    assert!(u.heal_health(20).is_ok());
    assert_eq!(u.health(), 70);

    u.set_health(1).unwrap();
    assert!(u.heal_health(u32::MAX).is_ok());
    assert_eq!(u.health(), 100);
}
