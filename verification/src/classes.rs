//! Character classes and the RPG stat sheet they start from.
//!
//! Each class comes with a fixed table of base values, one per stat. The
//! table is an association list with pairwise-distinct keys.

use vstd::prelude::*;

verus! {

/// One of the seven RPG stats a character sheet tracks.
#[derive(Debug, Clone, Copy, PartialEq, Eq, Hash, Structural)]
pub enum Stat {
    Strength,
    Magic,
    Agility,
    Precision,
    Defense,
    Resistance,
    Wisdom,
}

impl Stat {
    /// The stat's help text.
    pub open spec fn spec_description(self) -> Seq<char> {
        match self {
            Stat::Strength => "Increases damage with physical weapons"@,
            Stat::Magic => "Increases damage with magical weapons"@,
            Stat::Agility => "Increases dodge chance and lowers the chance of receiving critical damage"@,
            Stat::Precision => "Increases accuracy and critical chance"@,
            Stat::Defense => "Decreases damage from physical sources"@,
            Stat::Resistance => "Decreases damage from magical sources"@,
            Stat::Wisdom => "Increases experience gain"@,
        }
    }

    /// What the stat does, for display.
    pub fn get_description(&self) -> (r: &str)
        ensures
            r@ == self.spec_description(),
    {
        match self {
            Stat::Strength => "Increases damage with physical weapons",
            Stat::Magic => "Increases damage with magical weapons",
            Stat::Agility => "Increases dodge chance and lowers the chance of receiving critical damage",
            Stat::Precision => "Increases accuracy and critical chance",
            Stat::Defense => "Decreases damage from physical sources",
            Stat::Resistance => "Decreases damage from magical sources",
            Stat::Wisdom => "Increases experience gain",
        }
    }
}

/// One of the four playable character classes.
#[derive(Debug, Clone, Copy, PartialEq, Eq, Hash, Structural)]
pub enum Class {
    Swordsman,
    Archer,
    Mage,
    Cleric,
}

impl Class {
    /// The class's base value for every stat, as an association list keyed
    /// by stat, in the fixed stat order.
    pub open spec fn spec_base_stats(self) -> Seq<(Stat, u32)> {
        match self {
            Class::Swordsman => seq![
                (Stat::Strength, 7u32),
                (Stat::Magic, 2u32),
                (Stat::Agility, 5u32),
                (Stat::Precision, 4u32),
                (Stat::Defense, 9u32),
                (Stat::Resistance, 5u32),
                (Stat::Wisdom, 5u32),
            ],
            Class::Archer => seq![
                (Stat::Strength, 6u32),
                (Stat::Magic, 3u32),
                (Stat::Agility, 6u32),
                (Stat::Precision, 7u32),
                (Stat::Defense, 5u32),
                (Stat::Resistance, 6u32),
                (Stat::Wisdom, 5u32),
            ],
            Class::Mage => seq![
                (Stat::Strength, 2u32),
                (Stat::Magic, 7u32),
                (Stat::Agility, 3u32),
                (Stat::Precision, 6u32),
                (Stat::Defense, 2u32),
                (Stat::Resistance, 7u32),
                (Stat::Wisdom, 5u32),
            ],
            Class::Cleric => seq![
                (Stat::Strength, 1u32),
                (Stat::Magic, 7u32),
                (Stat::Agility, 5u32),
                (Stat::Precision, 3u32),
                (Stat::Defense, 3u32),
                (Stat::Resistance, 4u32),
                (Stat::Wisdom, 5u32),
            ],
        }
    }

    /// The base stat table of this class; one entry per stat, keys distinct.
    pub fn base_stats(&self) -> (r: Vec<(Stat, u32)>)
        ensures
            r@ == self.spec_base_stats(),
    {
        match *self {
            Class::Swordsman => vec![
                (Stat::Strength, 7u32),
                (Stat::Magic, 2u32),
                (Stat::Agility, 5u32),
                (Stat::Precision, 4u32),
                (Stat::Defense, 9u32),
                (Stat::Resistance, 5u32),
                (Stat::Wisdom, 5u32),
            ],
            Class::Archer => vec![
                (Stat::Strength, 6u32),
                (Stat::Magic, 3u32),
                (Stat::Agility, 6u32),
                (Stat::Precision, 7u32),
                (Stat::Defense, 5u32),
                (Stat::Resistance, 6u32),
                (Stat::Wisdom, 5u32),
            ],
            Class::Mage => vec![
                (Stat::Strength, 2u32),
                (Stat::Magic, 7u32),
                (Stat::Agility, 3u32),
                (Stat::Precision, 6u32),
                (Stat::Defense, 2u32),
                (Stat::Resistance, 7u32),
                (Stat::Wisdom, 5u32),
            ],
            Class::Cleric => vec![
                (Stat::Strength, 1u32),
                (Stat::Magic, 7u32),
                (Stat::Agility, 5u32),
                (Stat::Precision, 3u32),
                (Stat::Defense, 3u32),
                (Stat::Resistance, 4u32),
                (Stat::Wisdom, 5u32),
            ],
        }
    }
}

} // verus!
