//! Units and their validated stat and damage semantics.
//!
//! A unit is a combatant on the board. Its health and secondary stats are
//! capped; stat-setting operations fail rather than clamp, and a unit whose
//! health has reached zero is dead and rejects every further mutation.

use vstd::prelude::*;

verus! {

/// Cap on a unit's health pool.
pub const MAX_HEALTH: u32 = 100;

/// Cap on every secondary stat (stamina, strength, defense, movement, agility).
pub const MAX_SECONDARY_STAT: u32 = 30;

/// Errors returned by unit construction and mutation.
#[derive(Debug, Clone, Copy, PartialEq, Eq, Structural)]
pub enum UnitError {
    /// The requested value exceeds the fixed cap for that stat.
    StatTooHigh,
    /// The unit's health is zero; the dead reject all mutation.
    UnitNotAlive,
}

/// One of four ordered protection tiers a unit can have for armor or
/// resistance. Immutable once assigned to a unit.
#[derive(Debug, Clone, Copy, PartialEq, Eq, Structural)]
pub enum Protection {
    Light,
    Medium,
    Heavy,
    SuperHeavy,
}

impl Protection {
    /// The fixed blocking-power percentage of this tier.
    pub open spec fn spec_blocking_power(self) -> u8 {
        match self {
            Protection::Light => 20,
            Protection::Medium => 45,
            Protection::Heavy => 75,
            Protection::SuperHeavy => 95,
        }
    }

    /// Percentage applied to incoming damage of the matching type.
    pub fn blocking_power(&self) -> (r: u8)
        ensures
            r == self.spec_blocking_power(),
    {
        match *self {
            Protection::Light => 20,
            Protection::Medium => 45,
            Protection::Heavy => 75,
            Protection::SuperHeavy => 95,
        }
    }

    /// The tier's display name.
    pub open spec fn spec_label(self) -> Seq<char> {
        match self {
            Protection::Light => "Light"@,
            Protection::Medium => "Medium"@,
            Protection::Heavy => "Heavy"@,
            Protection::SuperHeavy => "SuperHeavy"@,
        }
    }

    /// Display name of the tier.
    pub fn label(&self) -> (r: &'static str)
        ensures
            r@ == self.spec_label(),
    {
        match *self {
            Protection::Light => "Light",
            Protection::Medium => "Medium",
            Protection::Heavy => "Heavy",
            Protection::SuperHeavy => "SuperHeavy",
        }
    }
}

/// The kind of an incoming hit. Physical damage is scaled by the target's
/// armor, elemental damage by its resistance, and true damage is unscaled.
#[derive(Debug, Clone, Copy, PartialEq, Eq, Structural)]
pub enum DamageType {
    Physical,
    Elemental,
    True,
}

/// One of five stats a unit can have (excluding armor and resistance,
/// which follow different rules).
#[derive(Debug, Clone, Copy, PartialEq, Eq, Structural)]
pub enum Stat {
    Health,
    Stamina,
    Strength,
    Defense,
    Movement,
}

/// A unit on the game board. Controlled by a player; can move, attack,
/// and use abilities.
pub struct Unit {
    pub name: String,
    pub health: u32,
    pub stamina: u32,
    pub strength: u32,
    pub defense: u32,
    pub movement: u32,
    pub agility: u32,
    pub armor: Protection,
    pub resistance: Protection,
}

impl Unit {
    /// Every stat is within its cap.
    pub open spec fn wf(self) -> bool {
        &&& self.health <= MAX_HEALTH
        &&& self.stamina <= MAX_SECONDARY_STAT
        &&& self.strength <= MAX_SECONDARY_STAT
        &&& self.defense <= MAX_SECONDARY_STAT
        &&& self.movement <= MAX_SECONDARY_STAT
        &&& self.agility <= MAX_SECONDARY_STAT
    }

    /// A unit with zero health is dead and rejects all further mutation.
    pub open spec fn is_alive(self) -> bool {
        self.health > 0
    }

    /// The initial stats are all within their caps.
    pub open spec fn initial_stats_valid(
        health: u32,
        stamina: u32,
        strength: u32,
        defense: u32,
        movement: u32,
        agility: u32,
    ) -> bool {
        &&& health <= MAX_HEALTH
        &&& stamina <= MAX_SECONDARY_STAT
        &&& strength <= MAX_SECONDARY_STAT
        &&& defense <= MAX_SECONDARY_STAT
        &&& movement <= MAX_SECONDARY_STAT
        &&& agility <= MAX_SECONDARY_STAT
    }

    /// Constructs a unit, validating every initial stat against its cap.
    pub fn new(
        name: String,
        health: u32,
        stamina: u32,
        strength: u32,
        defense: u32,
        movement: u32,
        agility: u32,
        armor: Protection,
        resistance: Protection,
    ) -> (r: Result<Unit, UnitError>)
        ensures
            r is Ok <==> Self::initial_stats_valid(
                health, stamina, strength, defense, movement, agility),
            r matches Ok(u) ==> {
                &&& u.wf()
                &&& u.name == name
                &&& u.health == health
                &&& u.stamina == stamina
                &&& u.strength == strength
                &&& u.defense == defense
                &&& u.movement == movement
                &&& u.agility == agility
                &&& u.armor == armor
                &&& u.resistance == resistance
            },
            r matches Err(e) ==> e == UnitError::StatTooHigh,
    {
        if health > MAX_HEALTH || stamina > MAX_SECONDARY_STAT
            || strength > MAX_SECONDARY_STAT || defense > MAX_SECONDARY_STAT
            || movement > MAX_SECONDARY_STAT || agility > MAX_SECONDARY_STAT
        {
            return Err(UnitError::StatTooHigh);
        }
        Ok(Unit { name, health, stamina, strength, defense, movement, agility, armor, resistance })
    }

    pub fn name(&self) -> (r: &str)
        ensures
            r@ == self.name@,
    {
        self.name.as_str()
    }

    pub fn health(&self) -> (r: u32)
        ensures
            r == self.health,
    {
        self.health
    }

    pub fn stamina(&self) -> (r: u32)
        ensures
            r == self.stamina,
    {
        self.stamina
    }

    pub fn strength(&self) -> (r: u32)
        ensures
            r == self.strength,
    {
        self.strength
    }

    pub fn defense(&self) -> (r: u32)
        ensures
            r == self.defense,
    {
        self.defense
    }

    pub fn movement(&self) -> (r: u32)
        ensures
            r == self.movement,
    {
        self.movement
    }

    pub fn agility(&self) -> (r: u32)
        ensures
            r == self.agility,
    {
        self.agility
    }

    pub fn armor(&self) -> (r: &Protection)
        ensures
            *r == self.armor,
    {
        &self.armor
    }

    pub fn resistance(&self) -> (r: &Protection)
        ensures
            *r == self.resistance,
    {
        &self.resistance
    }

    /// Everything but the health pool is unchanged.
    pub open spec fn same_but_health(pre: Unit, post: Unit) -> bool {
        &&& post.name == pre.name
        &&& post.stamina == pre.stamina
        &&& post.strength == pre.strength
        &&& post.defense == pre.defense
        &&& post.movement == pre.movement
        &&& post.agility == pre.agility
        &&& post.armor == pre.armor
        &&& post.resistance == pre.resistance
    }

    /// Overwrites the health pool exactly. Fails if the unit is dead or the
    /// value exceeds the cap; on failure the unit is untouched.
    pub fn set_health(&mut self, health: u32) -> (r: Result<(), UnitError>)
        ensures
            r is Ok <==> old(self).is_alive() && health <= MAX_HEALTH,
            r is Ok ==> {
                &&& final(self).health == health
                &&& Self::same_but_health(*old(self), *final(self))
            },
            r matches Err(e) ==> {
                &&& *final(self) == *old(self)
                &&& e == (if old(self).is_alive() { UnitError::StatTooHigh } else {
                    UnitError::UnitNotAlive
                })
            },
            old(self).wf() ==> final(self).wf(),
    {
        if self.health == 0 {
            return Err(UnitError::UnitNotAlive);
        }
        if health > MAX_HEALTH {
            return Err(UnitError::StatTooHigh);
        }
        self.health = health;
        Ok(())
    }

    /// The damage actually inflicted by a hit of `amount` with the given
    /// type: `amount * blocking_power / 100` with integer truncation for
    /// physical (armor) and elemental (resistance) damage, `amount` itself
    /// for true damage.
    pub open spec fn spec_effective_damage(self, amount: u32, damage_type: DamageType) -> int {
        match damage_type {
            DamageType::Physical => amount * self.armor.spec_blocking_power() / 100,
            DamageType::Elemental => amount * self.resistance.spec_blocking_power() / 100,
            DamageType::True => amount as int,
        }
    }

    /// Inflicts damage of the given type. The effective amount is scaled by
    /// the matching protection tier; health saturates at zero rather than
    /// going negative. Fails, changing nothing, if the unit is already dead.
    pub fn take_damage(&mut self, damage: u32, damage_type: DamageType) -> (r: Result<
        (),
        UnitError,
    >)
        ensures
            r is Ok <==> old(self).is_alive(),
            r is Ok ==> {
                &&& final(self).health == max_int(
                    0,
                    old(self).health - old(self).spec_effective_damage(damage, damage_type),
                )
                &&& Self::same_but_health(*old(self), *final(self))
            },
            r matches Err(e) ==> *final(self) == *old(self) && e == UnitError::UnitNotAlive,
            old(self).wf() ==> final(self).wf(),
    {
        if self.health == 0 {
            return Err(UnitError::UnitNotAlive);
        }
        let effective: u32 = match damage_type {
            DamageType::Physical => scale_damage(damage, self.armor.blocking_power()),
            DamageType::Elemental => scale_damage(damage, self.resistance.blocking_power()),
            DamageType::True => damage,
        };
        if effective >= self.health {
            self.health = 0;
        } else {
            self.health = self.health - effective;
        }
        Ok(())
    }

    /// Heals by `healing`, saturating at the health cap. Fails, changing
    /// nothing, only if the unit is already dead.
    pub fn heal_health(&mut self, healing: u32) -> (r: Result<(), UnitError>)
        requires
            old(self).wf(),
        ensures
            final(self).wf(),
            r is Ok <==> old(self).is_alive(),
            r is Ok ==> {
                &&& final(self).health == min_int(old(self).health + healing, MAX_HEALTH as int)
                &&& Self::same_but_health(*old(self), *final(self))
            },
            r matches Err(e) ==> *final(self) == *old(self) && e == UnitError::UnitNotAlive,
    {
        if self.health == 0 {
            return Err(UnitError::UnitNotAlive);
        }
        if healing >= MAX_HEALTH - self.health {
            self.health = MAX_HEALTH;
        } else {
            self.health = self.health + healing;
        }
        Ok(())
    }

    /// Overwrites the strength stat exactly; fails against the cap or on a
    /// dead unit, leaving the unit untouched.
    pub fn set_strength(&mut self, strength: u32) -> (r: Result<(), UnitError>)
        ensures
            r is Ok <==> old(self).is_alive() && strength <= MAX_SECONDARY_STAT,
            r is Ok ==> *final(self) == (Unit { strength, ..*old(self) }),
            r is Err ==> *final(self) == *old(self),
            r matches Err(e) ==> e == (if old(self).is_alive() { UnitError::StatTooHigh } else {
                UnitError::UnitNotAlive
            }),
            old(self).wf() ==> final(self).wf(),
    {
        let health = self.health;
        set_stat(health, strength, MAX_SECONDARY_STAT, &mut self.strength)
    }

    /// Overwrites the stamina stat exactly; fails against the cap or on a
    /// dead unit, leaving the unit untouched.
    pub fn set_stamina(&mut self, stamina: u32) -> (r: Result<(), UnitError>)
        ensures
            r is Ok <==> old(self).is_alive() && stamina <= MAX_SECONDARY_STAT,
            r is Ok ==> *final(self) == (Unit { stamina, ..*old(self) }),
            r is Err ==> *final(self) == *old(self),
            r matches Err(e) ==> e == (if old(self).is_alive() { UnitError::StatTooHigh } else {
                UnitError::UnitNotAlive
            }),
            old(self).wf() ==> final(self).wf(),
    {
        let health = self.health;
        set_stat(health, stamina, MAX_SECONDARY_STAT, &mut self.stamina)
    }

    /// Overwrites the defense stat exactly; fails against the cap or on a
    /// dead unit, leaving the unit untouched.
    pub fn set_defense(&mut self, defense: u32) -> (r: Result<(), UnitError>)
        ensures
            r is Ok <==> old(self).is_alive() && defense <= MAX_SECONDARY_STAT,
            r is Ok ==> *final(self) == (Unit { defense, ..*old(self) }),
            r is Err ==> *final(self) == *old(self),
            r matches Err(e) ==> e == (if old(self).is_alive() { UnitError::StatTooHigh } else {
                UnitError::UnitNotAlive
            }),
            old(self).wf() ==> final(self).wf(),
    {
        let health = self.health;
        set_stat(health, defense, MAX_SECONDARY_STAT, &mut self.defense)
    }

    /// Overwrites the movement stat exactly; fails against the cap or on a
    /// dead unit, leaving the unit untouched.
    pub fn set_movement(&mut self, movement: u32) -> (r: Result<(), UnitError>)
        ensures
            r is Ok <==> old(self).is_alive() && movement <= MAX_SECONDARY_STAT,
            r is Ok ==> *final(self) == (Unit { movement, ..*old(self) }),
            r is Err ==> *final(self) == *old(self),
            r matches Err(e) ==> e == (if old(self).is_alive() { UnitError::StatTooHigh } else {
                UnitError::UnitNotAlive
            }),
            old(self).wf() ==> final(self).wf(),
    {
        let health = self.health;
        set_stat(health, movement, MAX_SECONDARY_STAT, &mut self.movement)
    }
}

/// The larger of two mathematical integers.
pub open spec fn max_int(a: int, b: int) -> int {
    if a >= b {
        a
    } else {
        b
    }
}

/// The smaller of two mathematical integers.
pub open spec fn min_int(a: int, b: int) -> int {
    if a <= b {
        a
    } else {
        b
    }
}

/// `amount * percent / 100`, with integer truncation.
fn scale_damage(amount: u32, percent: u8) -> (r: u32)
    requires
        percent <= 100,
    ensures
        r == amount * percent / 100,
{
    proof {
        assert(amount * percent <= u32::MAX * 100) by (nonlinear_arith)
            requires
                amount <= u32::MAX,
                percent <= 100,
        ;
        assert(amount * percent / 100 <= u32::MAX) by (nonlinear_arith)
            requires
                amount * percent <= u32::MAX * 100,
        ;
    }
    let wide: u64 = (amount as u64) * (percent as u64);
    (wide / 100) as u32
}

/// Shared core of the stat setters: writes `value` through `stat` when the
/// unit is alive and the value is within `max`.
fn set_stat(current_health: u32, value: u32, max: u32, stat: &mut u32) -> (r: Result<
    (),
    UnitError,
>)
    ensures
        r is Ok <==> current_health > 0 && value <= max,
        r is Ok ==> *final(stat) == value,
        r is Err ==> *final(stat) == *old(stat),
        r matches Err(e) ==> e == (if current_health > 0 {
            UnitError::StatTooHigh
        } else {
            UnitError::UnitNotAlive
        }),
{
    if current_health == 0 {
        return Err(UnitError::UnitNotAlive);
    }
    if value > max {
        return Err(UnitError::StatTooHigh);
    }
    *stat = value;
    Ok(())
}

} // verus!
