//! Collectible resources that can sit on a cell.
//!
//! An item is an immutable tagged value owned by exactly one cell. Placing
//! a unit on a cell destroys any item lying there.

use vstd::prelude::*;

verus! {

/// A mineable ore kind.
#[derive(Debug, Clone, Copy, PartialEq, Eq, Structural)]
pub enum Ore {
    IronOre,
    SilverOre,
    PlatinumOre,
}

/// A gatherable herb kind.
#[derive(Debug, Clone, Copy, PartialEq, Eq, Structural)]
pub enum Herb {
    RestorationHerb,
    EnchantedHerb,
    PowerHerb,
}

/// A precious gem kind.
#[derive(Debug, Clone, Copy, PartialEq, Eq, Structural)]
pub enum Gem {
    Ruby,
    Sapphire,
    Emerald,
    Topaz,
}

/// A collectible resource: an ore, a herb, a gem, or an amount of gold.
#[derive(Debug, Clone, Copy, PartialEq, Eq, Structural)]
pub enum Item {
    Ore(Ore),
    Herb(Herb),
    Gem(Gem),
    Gold(u32),
}

impl Item {
    pub fn is_ore(&self) -> (r: bool)
        ensures
            r == (self is Ore),
    {
        matches!(self, Item::Ore(_))
    }

    pub fn is_herb(&self) -> (r: bool)
        ensures
            r == (self is Herb),
    {
        matches!(self, Item::Herb(_))
    }

    pub fn is_gem(&self) -> (r: bool)
        ensures
            r == (self is Gem),
    {
        matches!(self, Item::Gem(_))
    }
}

} // verus!
