//! Levels: a named rectangular grid of cells, a set of unique rules, and a
//! running/paused flag.

use vstd::prelude::*;

use crate::cell::Cell;

verus! {

/// A special level setting; default levels have none. The level keeps at
/// most one copy of each rule.
#[derive(Debug, Clone, Copy, PartialEq, Eq, Hash, Structural)]
pub enum Rule {
    LowIntel,
    FullIntel,
}

impl Rule {
    /// The rule's help text.
    pub open spec fn spec_description(self) -> Seq<char> {
        match self {
            Rule::LowIntel => "Visibility lowered by one square"@,
            Rule::FullIntel => "Player can see the whole board"@,
        }
    }

    /// What the rule does, for display.
    pub fn get_description(&self) -> (r: String)
        ensures
            r@ == self.spec_description(),
    {
        match self {
            Rule::LowIntel => String::from_str("Visibility lowered by one square"),
            Rule::FullIntel => String::from_str("Player can see the whole board"),
        }
    }
}

/// No rule occurs twice: the rule collection behaves as a set.
pub open spec fn rules_unique(rules: Seq<Rule>) -> bool {
    forall|i: int, j: int| 0 <= i < j < rules.len() ==> rules[i] != rules[j]
}

/// Every row has the same number of columns.
pub open spec fn grid_rectangular(grid: Seq<Vec<Cell>>) -> bool {
    forall|i: int| 0 <= i < grid.len() ==> (#[trigger] grid[i])@.len() == grid[0]@.len()
}

/// A level a player can play on: its map and its rules. The grid dimensions
/// are fixed at construction; only cell contents change during play.
pub struct Level {
    pub name: String,
    pub grid: Vec<Vec<Cell>>,
    pub rules: Vec<Rule>,
    pub in_progress: bool,
}

impl Level {
    /// The rule set holds no duplicates and the grid is rectangular.
    pub open spec fn wf(self) -> bool {
        &&& rules_unique(self.rules@)
        &&& grid_rectangular(self.grid@)
    }

    /// A freshly constructed level is paused.
    pub fn new(name: String, grid: Vec<Vec<Cell>>, rules: Vec<Rule>) -> (r: Level)
        requires
            rules_unique(rules@),
            grid_rectangular(grid@),
        ensures
            r.name == name,
            r.grid == grid,
            r.rules == rules,
            !r.in_progress,
            r.wf(),
    {
        Level { name, grid, rules, in_progress: false }
    }

    /// Everything but the running flag is unchanged.
    pub open spec fn same_but_progress(pre: Level, post: Level) -> bool {
        &&& post.name == pre.name
        &&& post.grid == pre.grid
        &&& post.rules == pre.rules
    }

    pub fn start(&mut self)
        ensures
            final(self).in_progress,
            Self::same_but_progress(*old(self), *final(self)),
    {
        self.in_progress = true;
    }

    pub fn pause(&mut self)
        ensures
            !final(self).in_progress,
            Self::same_but_progress(*old(self), *final(self)),
    {
        self.in_progress = false;
    }

    pub fn in_progress(&self) -> (r: bool)
        ensures
            r == self.in_progress,
    {
        self.in_progress
    }

    /// Everything but the rule set is unchanged.
    pub open spec fn same_but_rules(pre: Level, post: Level) -> bool {
        &&& post.name == pre.name
        &&& post.grid == pre.grid
        &&& post.in_progress == pre.in_progress
    }

    /// Inserts a rule with set semantics: a rule already present is not
    /// duplicated.
    pub fn add_rule(&mut self, rule: Rule)
        ensures
            old(self).rules@.contains(rule) ==> final(self).rules@ == old(self).rules@,
            !old(self).rules@.contains(rule) ==> final(self).rules@ == old(self).rules@.push(
                rule,
            ),
            final(self).rules@.contains(rule),
            Self::same_but_rules(*old(self), *final(self)),
            old(self).wf() ==> final(self).wf(),
    {
        let n = self.rules.len();
        let mut i: usize = 0;
        while i < n
            invariant
                n == self.rules.len(),
                i <= n,
                forall|k: int| 0 <= k < i ==> self.rules@[k] != rule,
                *self == *old(self),
            decreases n - i,
        {
            if self.rules[i] == rule {
                assert(self.rules@.contains(rule));
                return ;
            }
            i = i + 1;
        }
        assert(!self.rules@.contains(rule));
        self.rules.push(rule);
        proof {
            assert(self.rules@.last() == rule);
            assert(self.rules@.contains(rule));
        }
    }

    /// Removes a rule if present; a rule not in the set leaves the level
    /// unchanged. Afterwards the rule is not in the set.
    pub fn remove_rule(&mut self, rule: &Rule)
        requires
            old(self).wf(),
        ensures
            final(self).wf(),
            !old(self).rules@.contains(*rule) ==> final(self).rules@ == old(self).rules@,
            old(self).rules@.contains(*rule) ==> (exists|i: int|
                0 <= i < old(self).rules@.len() && old(self).rules@[i] == *rule
                    && final(self).rules@ == old(self).rules@.remove(i)),
            !final(self).rules@.contains(*rule),
            Self::same_but_rules(*old(self), *final(self)),
    {
        let n = self.rules.len();
        let mut i: usize = 0;
        while i < n
            invariant
                n == self.rules.len(),
                i <= n,
                forall|k: int| 0 <= k < i ==> self.rules@[k] != *rule,
                *self == *old(self),
                old(self).wf(),
            decreases n - i,
        {
            if self.rules[i] == *rule {
                self.rules.remove(i);
                proof {
                    assert forall|k: int| 0 <= k < self.rules@.len() implies self.rules@[k]
                        != *rule by {
                        if k < i {
                            assert(self.rules@[k] == old(self).rules@[k]);
                        } else {
                            assert(self.rules@[k] == old(self).rules@[k + 1]);
                        }
                    }
                }
                return ;
            }
            i = i + 1;
        }
        assert(!self.rules@.contains(*rule));
    }

    pub fn get_rules(&self) -> (r: &Vec<Rule>)
        ensures
            *r == self.rules,
    {
        &self.rules
    }

    pub fn get_grid(&self) -> (r: &Vec<Vec<Cell>>)
        ensures
            *r == self.grid,
    {
        &self.grid
    }
}

} // verus!
