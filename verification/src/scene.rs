//! Scenes: the named, activatable modes of play.
//!
//! A scene is either inactive or active, and `activate` / `deactivate`
//! strictly alternate: activating an active scene fails, as does
//! deactivating an inactive one. The game owns one scene of each kind and
//! keeps exactly the current one active.

use vstd::prelude::*;

use crate::button::Button;
use crate::cell::Cell;
use crate::game::GameError;
use crate::game::GameEvent;
use crate::geometry::HALF_X;
use crate::geometry::HALF_Y;
use crate::geometry::HEIGHT;
use crate::geometry::WIDTH;
use crate::numerals::decimal_string;
use crate::numerals::spec_decimal;
use vstd::string::StringExecFns;

verus! {

/// Names one of the three scenes of the game.
#[derive(Debug, Clone, Copy, PartialEq, Eq, Structural)]
pub enum SceneId {
    Start,
    LevelSelect,
    MidLevel,
}

/// The start menu: a single centered start button.
pub struct StartScene {
    pub start_button: Button,
    pub activated: bool,
}

impl StartScene {
    /// The start button fires the start-game event from its fixed place in
    /// the middle of the grid.
    pub open spec fn wf(self) -> bool {
        &&& self.start_button.activation_event == GameEvent::StartGame
        &&& self.start_button.top_left == ((HALF_X, HALF_Y))
        &&& self.start_button.bottom_right.0 == HALF_X + 2
        &&& self.start_button.bottom_right.1 == HALF_Y + 1
        &&& self.start_button.text@ == "Start"@
    }

    /// A fresh start scene, not yet activated.
    pub fn new() -> (r: StartScene)
        ensures
            r.wf(),
            !r.activated,
    {
        let start_button = Button::new(
            "Start",
            (HALF_X, HALF_Y),
            (HALF_X + 2, HALF_Y + 1),
            GameEvent::StartGame,
        );
        StartScene { start_button, activated: false }
    }

    pub fn get_button(&self) -> (r: &Button)
        ensures
            *r == self.start_button,
    {
        &self.start_button
    }

    pub fn get_name(&self) -> (r: &'static str)
        ensures
            r@ == "Start"@,
    {
        "Start"
    }

    pub fn is_activated(&self) -> (r: bool)
        ensures
            r == self.activated,
    {
        self.activated
    }

    /// Activates the scene; fails if it is already active, so two
    /// activations must be separated by a deactivation.
    pub fn activate(&mut self) -> (r: Result<(), GameError>)
        ensures
            r is Ok <==> !old(self).activated,
            r is Ok ==> *final(self) == (StartScene { activated: true, ..*old(self) }),
            r matches Err(e) ==> e == GameError::SceneActivationError && *final(self) == *old(
                self,
            ),
    {
        if self.activated {
            return Err(GameError::SceneActivationError);
        }
        self.activated = true;
        Ok(())
    }

    /// Deactivates the scene; fails if it is already inactive.
    pub fn deactivate(&mut self) -> (r: Result<(), GameError>)
        ensures
            r is Ok <==> old(self).activated,
            r is Ok ==> *final(self) == (StartScene { activated: false, ..*old(self) }),
            r matches Err(e) ==> e == GameError::SceneActivationError && *final(self) == *old(
                self,
            ),
    {
        if !self.activated {
            return Err(GameError::SceneActivationError);
        }
        self.activated = false;
        Ok(())
    }
}

/// Grid margin left of and right of the level buttons: a quarter of the
/// grid width, rounded.
pub const SIDE_MARGIN: i32 = 4;

/// Grid margin above and below the level buttons: a fifth of the grid
/// height, rounded.
pub const VERT_MARGIN: i32 = 2;

/// Grid rows available for buttons and gaps.
pub const USABLE_ROWS: i32 = HEIGHT - 2 * VERT_MARGIN;

/// Grid columns each level button spans.
pub const BUTTON_COLS: i32 = WIDTH - 2 * SIDE_MARGIN;

/// Grid rows reserved for the gaps between buttons: a quarter of the
/// usable rows, rounded.
pub const TOTAL_GAP_ROWS: i32 = 2;

/// Nearest integer to `a / n`, rounding halves away from zero; `n > 0`.
pub open spec fn spec_round_div(a: int, n: int) -> int {
    if a >= 0 {
        (2 * a + n) / (2 * n)
    } else {
        -((2 * (-a) + n) / (2 * n))
    }
}

/// Rows of the gap between two adjacent level buttons, distributing
/// `TOTAL_GAP_ROWS` into `n - 1` gaps, rounded up.
pub open spec fn spec_gap_rows(n: int) -> int {
    if n > 1 {
        (TOTAL_GAP_ROWS + (n - 2)) / (n - 1)
    } else {
        0
    }
}

/// Rows of one level button: the rows left after the gaps, divided evenly
/// among the `n` buttons and rounded to the nearest integer.
pub open spec fn spec_button_rows(n: int) -> int {
    spec_round_div(USABLE_ROWS - spec_gap_rows(n) * (n - 1), n)
}

/// Grid row of the top edge of level button `i` out of `n`.
pub open spec fn spec_button_y(i: int, n: int) -> int {
    VERT_MARGIN + i * (spec_button_rows(n) + spec_gap_rows(n))
}

/// The label of level button `i` (zero-based): `Level i+1`.
pub open spec fn spec_level_label(i: int) -> Seq<char> {
    "Level "@ + spec_decimal((i + 1) as nat)
}

/// Level button `i` out of `n` sits in its computed slot, carries its
/// label, and selects level `i + 1`.
pub open spec fn spec_level_button(b: Button, i: int, n: int) -> bool {
    &&& b.top_left.0 == SIDE_MARGIN
    &&& b.top_left.1 as int == spec_button_y(i, n)
    &&& b.bottom_right.0 == SIDE_MARGIN + BUTTON_COLS
    &&& b.bottom_right.1 as int == spec_button_y(i, n) + spec_button_rows(n)
    &&& b.text@ == spec_level_label(i)
    &&& b.activation_event == GameEvent::SelectLevel((i + 1) as i32)
}

/// Cap on the number of level buttons, so the layout arithmetic stays in
/// the grid's `i32` coordinate space.
pub const MAX_LEVELS: i32 = 1000;

/// The level selection menu: one button per level, stacked vertically.
pub struct LevelSelectScene {
    pub level_buttons: Vec<Button>,
    pub activated: bool,
}

impl LevelSelectScene {
    /// At least one level; button `i` selects level `i + 1`.
    pub open spec fn wf(self) -> bool {
        &&& 1 <= self.level_buttons@.len() <= MAX_LEVELS
        &&& forall|i: int|
            0 <= i < self.level_buttons@.len() ==> (#[trigger] self.level_buttons@[i])
                .activation_event == GameEvent::SelectLevel((i + 1) as i32)
    }

    /// Builds the menu for `num_levels` levels, laying the buttons out
    /// under the grid margins with evenly distributed gaps.
    pub fn new(num_levels: i32) -> (r: LevelSelectScene)
        requires
            1 <= num_levels <= MAX_LEVELS,
        ensures
            r.wf(),
            !r.activated,
            r.level_buttons@.len() == num_levels,
            forall|i: int|
                0 <= i < num_levels ==> spec_level_button(
                    #[trigger] r.level_buttons@[i],
                    i,
                    num_levels as int,
                ),
    {
        let n: u32 = num_levels as u32;

        // Distribute the gap rows into (n - 1) gaps, rounding up.
        let mut gap_rows: u32 = 0;
        if n > 1 {
            let num: u32 = (TOTAL_GAP_ROWS as u32) + (n - 2);
            gap_rows = num / (n - 1);
            proof {
                assert(gap_rows * (n - 1) <= num) by (nonlinear_arith)
                    requires
                        gap_rows == num as int / ((n - 1) as int),
                        n >= 2,
                ;
                assert(gap_rows <= 2) by (nonlinear_arith)
                    requires
                        gap_rows == num as int / ((n - 1) as int),
                        num == n,
                        n >= 2,
                ;
            }
        }
        assert(gap_rows as int == spec_gap_rows(n as int));
        assert(gap_rows <= 2);

        // Rows left for the buttons themselves, shared evenly and rounded
        // to the nearest row. The remainder can turn negative when there
        // are many levels, so the rounding division is split by sign.
        let gaps_total: u32 = gap_rows * (n - 1);
        assert(gaps_total <= n);
        let button_rows: i32;
        if gaps_total <= (USABLE_ROWS as u32) {
            let a: u32 = (USABLE_ROWS as u32) - gaps_total;
            let q: u32 = (2 * a + n) / (2 * n);
            proof {
                assert(q <= 6) by (nonlinear_arith)
                    requires
                        q == (2 * a + n) as int / ((2 * n) as int),
                        a <= 6,
                        n >= 1,
                ;
            }
            button_rows = q as i32;
        } else {
            let d: u32 = gaps_total - (USABLE_ROWS as u32);
            let q: u32 = (2 * d + n) / (2 * n);
            proof {
                assert(q <= 1) by (nonlinear_arith)
                    requires
                        q == (2 * d + n) as int / ((2 * n) as int),
                        d <= n,
                        n >= 1,
                ;
            }
            button_rows = -(q as i32);
        }
        assert(button_rows as int == spec_button_rows(n as int));
        assert(-1 <= button_rows <= USABLE_ROWS);

        let gap_rows: i32 = gap_rows as i32;
        let step: i32 = button_rows + gap_rows;
        let ghost spec_step = spec_button_rows(n as int) + spec_gap_rows(n as int);

        let mut level_buttons: Vec<Button> = Vec::new();
        let mut current_y: i32 = VERT_MARGIN;
        let mut i: i32 = 0;
        while i < num_levels
            invariant
                0 <= i <= num_levels,
                1 <= num_levels <= MAX_LEVELS,
                step == spec_step,
                spec_step == spec_button_rows(n as int) + spec_gap_rows(n as int),
                -1 <= spec_button_rows(n as int) <= USABLE_ROWS,
                0 <= spec_gap_rows(n as int) <= TOTAL_GAP_ROWS,
                n == num_levels,
                button_rows == spec_button_rows(n as int),
                current_y as int == spec_button_y(i as int, n as int),
                level_buttons@.len() == i,
                forall|k: int|
                    0 <= k < i ==> spec_level_button(#[trigger] level_buttons@[k], k, n as int),
            decreases num_levels - i,
        {
            proof {
                assert((i as int) * spec_step <= 1000 * 8 && (i as int) * spec_step >= -1000)
                    by (nonlinear_arith)
                    requires
                        0 <= i <= 1000,
                        -1 <= spec_step <= 8,
                ;
                assert(((i + 1) as int) * spec_step <= 1000 * 8 && ((i + 1) as int) * spec_step
                    >= -1000) by (nonlinear_arith)
                    requires
                        0 <= i + 1 <= 1000,
                        -1 <= spec_step <= 8,
                ;
            }
            let mut label = String::from_str("Level ");
            label.append(decimal_string((i + 1) as u32).as_str());
            proof {
                assert(label@ == spec_level_label(i as int));
            }
            level_buttons.push(
                Button::new(
                    label.as_str(),
                    (SIDE_MARGIN, current_y),
                    (SIDE_MARGIN + BUTTON_COLS, current_y + button_rows),
                    GameEvent::SelectLevel(i + 1),
                ),
            );
            proof {
                assert((i + 1) * spec_step == i * spec_step + spec_step) by (nonlinear_arith);
            }
            current_y = current_y + step;
            i = i + 1;
        }
        LevelSelectScene { level_buttons, activated: false }
    }

    pub fn get_buttons(&self) -> (r: &Vec<Button>)
        ensures
            *r == self.level_buttons,
    {
        &self.level_buttons
    }

    pub fn get_name(&self) -> (r: &'static str)
        ensures
            r@ == "Level Selection"@,
    {
        "Level Selection"
    }

    pub fn is_activated(&self) -> (r: bool)
        ensures
            r == self.activated,
    {
        self.activated
    }

    /// Activates the scene; fails if it is already active, so two
    /// activations must be separated by a deactivation.
    pub fn activate(&mut self) -> (r: Result<(), GameError>)
        ensures
            r is Ok <==> !old(self).activated,
            r is Ok ==> *final(self) == (LevelSelectScene { activated: true, ..*old(self) }),
            r matches Err(e) ==> e == GameError::SceneActivationError && *final(self) == *old(
                self,
            ),
    {
        if self.activated {
            return Err(GameError::SceneActivationError);
        }
        self.activated = true;
        Ok(())
    }

    /// Deactivates the scene; fails if it is already inactive.
    pub fn deactivate(&mut self) -> (r: Result<(), GameError>)
        ensures
            r is Ok <==> old(self).activated,
            r is Ok ==> *final(self) == (LevelSelectScene { activated: false, ..*old(self) }),
            r matches Err(e) ==> e == GameError::SceneActivationError && *final(self) == *old(
                self,
            ),
    {
        if !self.activated {
            return Err(GameError::SceneActivationError);
        }
        self.activated = false;
        Ok(())
    }
}

/// The in-level scene: a placeholder slot for combat-turn handling, which
/// is out of scope beyond the state it occupies.
pub struct MidLevelScene {
    pub grid: Vec<Vec<Cell>>,
    pub player_turn: bool,
    pub activated: bool,
}

impl MidLevelScene {
    /// A fresh, empty in-level scene, not yet activated.
    pub fn new() -> (r: MidLevelScene)
        ensures
            r.grid@.len() == 0,
            r.player_turn,
            !r.activated,
    {
        MidLevelScene { grid: Vec::new(), player_turn: true, activated: false }
    }

    pub fn get_name(&self) -> (r: &'static str)
        ensures
            r@ == "Mid-Level"@,
    {
        "Mid-Level"
    }

    pub fn is_activated(&self) -> (r: bool)
        ensures
            r == self.activated,
    {
        self.activated
    }

    /// Activates the scene; fails if it is already active, so two
    /// activations must be separated by a deactivation.
    pub fn activate(&mut self) -> (r: Result<(), GameError>)
        ensures
            r is Ok <==> !old(self).activated,
            r is Ok ==> *final(self) == (MidLevelScene { activated: true, ..*old(self) }),
            r matches Err(e) ==> e == GameError::SceneActivationError && *final(self) == *old(
                self,
            ),
    {
        if self.activated {
            return Err(GameError::SceneActivationError);
        }
        self.activated = true;
        Ok(())
    }

    /// Deactivates the scene; fails if it is already inactive.
    pub fn deactivate(&mut self) -> (r: Result<(), GameError>)
        ensures
            r is Ok <==> old(self).activated,
            r is Ok ==> *final(self) == (MidLevelScene { activated: false, ..*old(self) }),
            r matches Err(e) ==> e == GameError::SceneActivationError && *final(self) == *old(
                self,
            ),
    {
        if !self.activated {
            return Err(GameError::SceneActivationError);
        }
        self.activated = false;
        Ok(())
    }
}

} // verus!
