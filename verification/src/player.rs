//! Players: identity, difficulty, and progression.

use vstd::prelude::*;

verus! {

/// The player's chosen difficulty tier.
#[derive(Debug, Clone, Copy, PartialEq, Eq, Hash, Structural)]
pub enum Difficulty {
    Easy,
    Medium,
    Hard,
}

/// A player of the game, with their progression and settings. The roster
/// (owned by the game) holds at most one player per name.
pub struct Player {
    pub name: String,
    pub difficulty: Difficulty,
    pub highest_lvl: u32,
}

impl Player {
    /// A fresh player who has not reached any level yet.
    pub fn new(name: String, difficulty: Difficulty) -> (r: Player)
        ensures
            r.name == name,
            r.difficulty == difficulty,
            r.highest_lvl == 0,
    {
        Player { name, difficulty, highest_lvl: 0 }
    }

    pub fn name(&self) -> (r: &str)
        ensures
            r@ == self.name@,
    {
        self.name.as_str()
    }

    /// Advances the highest-level-reached counter by one; progression is
    /// monotonic.
    pub fn level_up(&mut self)
        requires
            old(self).highest_lvl < u32::MAX,
        ensures
            final(self).highest_lvl == old(self).highest_lvl + 1,
            final(self).name == old(self).name,
            final(self).difficulty == old(self).difficulty,
    {
        self.highest_lvl = self.highest_lvl + 1;
    }
}

/// The player selection screen: stores the candidate players shown there.
pub struct PlayerSelector {
    pub players: Vec<Player>,
}

} // verus!
