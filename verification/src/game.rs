//! The game orchestrator: events, errors, clickable UI elements, the
//! scenes, and the player roster.
//!
//! The game owns one scene of each kind and a pointer to the current one;
//! exactly the current scene is active. Clicks are dispatched to the first
//! element of the current scene that contains the point; the element's
//! event then drives the scene transition.

use vstd::prelude::*;
use vstd::string::StringExecFns;

use crate::button::Button;
use crate::cell::Cell;
use crate::geometry::spec_point_in_rect;
use crate::geometry::spec_to_px;
use crate::geometry::to_px;
use crate::player::Player;
use crate::scene::LevelSelectScene;
use crate::scene::MidLevelScene;
use crate::scene::SceneId;
use crate::scene::StartScene;

verus! {

/// Errors returned by the game orchestrator and its scenes.
#[derive(Debug, Clone, Copy, PartialEq, Eq, Structural)]
pub enum GameError {
    /// The named scene does not exist or is not reachable now.
    SceneSelectionError,
    /// Activating an active scene, deactivating an inactive one, or
    /// switching to the scene that is already current.
    SceneActivationError,
    /// The element cannot react to this UI event.
    InvalidEvent,
    /// A player with that name is already in the roster.
    PlayerAlreadyExists,
    /// No player with that name is in the roster.
    PlayerDoesNotExist,
}

/// A game-level event produced by clicking a UI element and dispatched to
/// the scene state machine.
#[derive(Debug, Clone, Copy, PartialEq, Eq, Structural)]
pub enum GameEvent {
    StartGame,
    SelectLevel(i32),
    EndLevel,
    MoveUnit(i32, i32, i32, i32),
}

/// A UI-level event delivered to a single element.
#[derive(Debug, Clone, Copy, PartialEq, Eq, Structural)]
pub enum UIEvent {
    ClickStartButton,
}

/// A clickable region of the current scene: a button, or a grid cell of
/// the in-level board.
pub enum UIElement {
    Button(Button),
    GridCell(Cell),
}

impl UIElement {
    pub open spec fn spec_top_left(self) -> (i32, i32) {
        match self {
            UIElement::Button(b) => b.top_left,
            UIElement::GridCell(c) => c.top_left,
        }
    }

    pub open spec fn spec_bottom_right(self) -> (i32, i32) {
        match self {
            UIElement::Button(b) => b.bottom_right,
            UIElement::GridCell(c) => c.bottom_right,
        }
    }

    /// A selectable element asks for further interaction once clicked: a
    /// cell with a unit on it does, a button does not.
    pub open spec fn spec_is_selectable(self) -> bool {
        match self {
            UIElement::Button(_) => false,
            UIElement::GridCell(c) => c.occupant is Occupied,
        }
    }

    /// The game-level event a click on this element produces. Cells yield
    /// none: cell-level events belong to the combat turn handling, which is
    /// out of scope beyond the state slot it occupies.
    pub open spec fn spec_click_event(self) -> Option<GameEvent> {
        match self {
            UIElement::Button(b) => Some(b.activation_event),
            UIElement::GridCell(_) => None,
        }
    }

    /// Whether pixel point `(x, y)` lies in the element's rectangle,
    /// inclusive on all four edges.
    pub open spec fn spec_contains_px(self, x: int, y: int) -> bool {
        spec_point_in_rect(self.spec_top_left(), self.spec_bottom_right(), x, y)
    }

    /// Whether a click on this element must be recorded as the selection.
    pub fn is_selectable(&self) -> (r: bool)
        ensures
            r == self.spec_is_selectable(),
    {
        match self {
            UIElement::Button(b) => b.is_selectable(),
            UIElement::GridCell(c) => c.is_selectable(),
        }
    }

    pub fn get_top_left(&self) -> (r: (i32, i32))
        ensures
            r == self.spec_top_left(),
    {
        match self {
            UIElement::Button(b) => b.get_top_left(),
            UIElement::GridCell(c) => c.get_top_left(),
        }
    }

    pub fn get_bottom_right(&self) -> (r: (i32, i32))
        ensures
            r == self.spec_bottom_right(),
    {
        match self {
            UIElement::Button(b) => b.get_bottom_right(),
            UIElement::GridCell(c) => c.get_bottom_right(),
        }
    }

    /// The element's rectangle in grid units: `(x1, y1, x2, y2)`.
    pub fn get_container(&self) -> (r: (i32, i32, i32, i32))
        ensures
            r == (
                self.spec_top_left().0,
                self.spec_top_left().1,
                self.spec_bottom_right().0,
                self.spec_bottom_right().1,
            ),
    {
        let tl = self.get_top_left();
        let br = self.get_bottom_right();
        (tl.0, tl.1, br.0, br.1)
    }

    /// The element's rectangle in pixels: `(x1, y1, x2, y2)`.
    pub fn get_container_coords(&self) -> (r: (i64, i64, i64, i64))
        ensures
            r.0 == spec_to_px(self.spec_top_left().0 as int),
            r.1 == spec_to_px(self.spec_top_left().1 as int),
            r.2 == spec_to_px(self.spec_bottom_right().0 as int),
            r.3 == spec_to_px(self.spec_bottom_right().1 as int),
    {
        let tl = self.get_top_left();
        let br = self.get_bottom_right();
        (to_px(tl.0), to_px(tl.1), to_px(br.0), to_px(br.1))
    }

    /// Inclusive test of a pixel point against the element's rectangle.
    pub fn cursor_in_container(&self, mouse_x: i64, mouse_y: i64) -> (r: bool)
        ensures
            r == self.spec_contains_px(mouse_x as int, mouse_y as int),
    {
        crate::geometry::point_in_rect(
            self.get_top_left(),
            self.get_bottom_right(),
            mouse_x,
            mouse_y,
        )
    }

    /// The game-level event a click on this element produces, if any.
    pub fn click_event(&self) -> (r: Option<GameEvent>)
        ensures
            r == self.spec_click_event(),
    {
        match self {
            UIElement::Button(b) => b.click_event(),
            UIElement::GridCell(_) => None,
        }
    }

    /// The element's display label, where it has one.
    pub fn get_label(&self) -> (r: Option<&str>)
        ensures
            self matches UIElement::Button(b) ==> (r matches Some(l) && l@ == b.text@),
            self is GridCell ==> r is None,
    {
        match self {
            UIElement::Button(b) => Some(b.get_label()),
            UIElement::GridCell(_) => None,
        }
    }
}

/// How many levels the level-selection menu of a new game offers.
pub const DEFAULT_NUM_LEVELS: i32 = 3;

/// `roster` with every player named `name` removed, order kept.
pub open spec fn spec_roster_without(roster: Seq<Player>, name: Seq<char>) -> Seq<Player>
    decreases roster.len(),
{
    if roster.len() == 0 {
        Seq::empty()
    } else if roster[0].name@ == name {
        spec_roster_without(roster.drop_first(), name)
    } else {
        seq![roster[0]] + spec_roster_without(roster.drop_first(), name)
    }
}

/// Removing a name never lengthens a roster; it shortens it exactly when
/// some player bears the name, and a roster without the name is untouched.
pub proof fn lemma_roster_without_len(roster: Seq<Player>, name: Seq<char>)
    ensures
        spec_roster_without(roster, name).len() <= roster.len(),
        Game::spec_has_player(roster, name) <==> spec_roster_without(roster, name).len()
            < roster.len(),
        !Game::spec_has_player(roster, name) ==> spec_roster_without(roster, name) == roster,
    decreases roster.len(),
{
    if roster.len() > 0 {
        lemma_roster_without_len(roster.drop_first(), name);
        if Game::spec_has_player(roster, name) {
            let i = choose|i: int|
                0 <= i < roster.len() && roster[i].name@ == name;
            if i > 0 {
                assert(roster.drop_first()[i - 1] == roster[i]);
                assert(Game::spec_has_player(roster.drop_first(), name));
            }
        }
        if Game::spec_has_player(roster.drop_first(), name) {
            let i = choose|i: int|
                0 <= i < roster.drop_first().len() && roster.drop_first()[i].name@ == name;
            assert(roster[i + 1] == roster.drop_first()[i]);
            assert(Game::spec_has_player(roster, name));
        }
        if !Game::spec_has_player(roster, name) {
            assert(roster[0].name@ != name);
            assert(spec_roster_without(roster, name) =~= roster);
        }
    }
}

/// The top-level orchestrator: all scenes, the pointer to the current one,
/// and the player roster.
pub struct Game {
    pub start: StartScene,
    pub level_select: LevelSelectScene,
    pub mid_level: MidLevelScene,
    pub current_scene: SceneId,
    pub players: Vec<Player>,
}

impl Game {
    /// Every scene is well-formed, and exactly the current scene is
    /// active.
    pub open spec fn wf(self) -> bool {
        &&& self.start.wf()
        &&& self.level_select.wf()
        &&& self.start.activated == (self.current_scene is Start)
        &&& self.level_select.activated == (self.current_scene is LevelSelect)
        &&& self.mid_level.activated == (self.current_scene is MidLevel)
    }

    /// A fresh game sits in the start scene, which is active, with the
    /// default levels on offer and an empty roster.
    pub fn new() -> (r: Game)
        ensures
            r.wf(),
            r.current_scene is Start,
            r.players@.len() == 0,
            r.level_select.level_buttons@.len() == DEFAULT_NUM_LEVELS,
            forall|i: int|
                0 <= i < DEFAULT_NUM_LEVELS ==> crate::scene::spec_level_button(
                    #[trigger] r.level_select.level_buttons@[i],
                    i,
                    DEFAULT_NUM_LEVELS as int,
                ),
    {
        let mut start = StartScene::new();
        let activated = start.activate();
        proof {
            assert(activated is Ok);
        }
        Game {
            start,
            level_select: LevelSelectScene::new(DEFAULT_NUM_LEVELS),
            mid_level: MidLevelScene::new(),
            current_scene: SceneId::Start,
            players: Vec::new(),
        }
    }

    /// The transition kept every scene's contents and the roster, and
    /// re-pointed the activation flags at `target`.
    pub open spec fn scene_switched(pre: Game, post: Game, target: SceneId) -> bool {
        &&& post.current_scene == target
        &&& post.start.start_button == pre.start.start_button
        &&& post.level_select.level_buttons == pre.level_select.level_buttons
        &&& post.mid_level.grid == pre.mid_level.grid
        &&& post.mid_level.player_turn == pre.mid_level.player_turn
        &&& post.players == pre.players
        &&& post.start.activated == (target is Start)
        &&& post.level_select.activated == (target is LevelSelect)
        &&& post.mid_level.activated == (target is MidLevel)
    }

    /// Moves play to `target`: deactivates the outgoing scene and activates
    /// the incoming one as one atomic transition. Fails, changing nothing,
    /// if `target` is already the current scene.
    pub fn switch_scene(&mut self, target: SceneId) -> (r: Result<(), GameError>)
        requires
            old(self).wf(),
        ensures
            final(self).wf(),
            r is Ok <==> target != old(self).current_scene,
            r is Ok ==> Self::scene_switched(*old(self), *final(self), target),
            r matches Err(e) ==> e == GameError::SceneActivationError && *final(self) == *old(
                self,
            ),
    {
        if self.current_scene == target {
            return Err(GameError::SceneActivationError);
        }
        let outgoing = match self.current_scene {
            SceneId::Start => self.start.deactivate(),
            SceneId::LevelSelect => self.level_select.deactivate(),
            SceneId::MidLevel => self.mid_level.deactivate(),
        };
        proof {
            assert(outgoing is Ok);
        }
        let incoming = match target {
            SceneId::Start => self.start.activate(),
            SceneId::LevelSelect => self.level_select.activate(),
            SceneId::MidLevel => self.mid_level.activate(),
        };
        proof {
            assert(incoming is Ok);
        }
        self.current_scene = target;
        Ok(())
    }

    /// Whether the scene state machine accepts `event` while `current` is
    /// the current scene. Any other combination marks a programming error
    /// in the dispatch loop, not a user-correctable condition, and is
    /// excluded by contract rather than recovered from.
    pub open spec fn event_valid(current: SceneId, event: GameEvent) -> bool {
        match event {
            GameEvent::StartGame => current is Start,
            GameEvent::SelectLevel(_) => current is LevelSelect,
            GameEvent::EndLevel => false,
            GameEvent::MoveUnit(_, _, _, _) => false,
        }
    }

    /// Dispatches a game event to the scene state machine: the start-game
    /// event moves play to level selection, and a level-selected event
    /// moves play into the level.
    pub fn receive_event(&mut self, event: &GameEvent)
        requires
            old(self).wf(),
            Self::event_valid(old(self).current_scene, *event),
        ensures
            final(self).wf(),
            *event is StartGame ==> Self::scene_switched(
                *old(self),
                *final(self),
                SceneId::LevelSelect,
            ),
            *event is SelectLevel ==> Self::scene_switched(
                *old(self),
                *final(self),
                SceneId::MidLevel,
            ),
    {
        match event {
            GameEvent::StartGame => {
                let switched = self.switch_scene(SceneId::LevelSelect);
                proof {
                    assert(switched is Ok);
                }
            },
            GameEvent::SelectLevel(_level) => {
                let switched = self.switch_scene(SceneId::MidLevel);
                proof {
                    assert(switched is Ok);
                }
            },
            _ => {
                proof {
                    assert(false);
                }
            },
        }
    }

    pub fn get_current_scene(&self) -> (r: SceneId)
        ensures
            r == self.current_scene,
    {
        self.current_scene
    }

    /// Whether the scene named by `id` currently holds the active flag.
    pub fn is_scene_activated(&self, id: SceneId) -> (r: bool)
        ensures
            r == match id {
                SceneId::Start => self.start.activated,
                SceneId::LevelSelect => self.level_select.activated,
                SceneId::MidLevel => self.mid_level.activated,
            },
    {
        match id {
            SceneId::Start => self.start.is_activated(),
            SceneId::LevelSelect => self.level_select.is_activated(),
            SceneId::MidLevel => self.mid_level.is_activated(),
        }
    }

    pub fn get_start_scene(&self) -> (r: &StartScene)
        ensures
            *r == self.start,
    {
        &self.start
    }

    pub fn get_level_select_scene(&self) -> (r: &LevelSelectScene)
        ensures
            *r == self.level_select,
    {
        &self.level_select
    }

    pub fn get_mid_level_scene(&self) -> (r: &MidLevelScene)
        ensures
            *r == self.mid_level,
    {
        &self.mid_level
    }

    /// The combat board (rows of cells), available while play is in a
    /// level.
    pub fn get_grid(&self) -> (r: Option<&Vec<Vec<Cell>>>)
        ensures
            self.current_scene is MidLevel ==> (r matches Some(g) && *g == self.mid_level.grid),
            !(self.current_scene is MidLevel) ==> r is None,
    {
        match self.current_scene {
            SceneId::MidLevel => Some(&self.mid_level.grid),
            _ => None,
        }
    }

    /// The ordered clickable elements of the current scene: the start
    /// scene shows its one button, level selection one button per level;
    /// the in-level scene's elements are out of scope and empty.
    pub open spec fn spec_ui_buttons(self) -> Seq<Button> {
        match self.current_scene {
            SceneId::Start => seq![self.start.start_button],
            SceneId::LevelSelect => self.level_select.level_buttons@,
            SceneId::MidLevel => Seq::empty(),
        }
    }

    /// Element `idx` of the current scene contains the pixel point, and no
    /// earlier element does.
    pub open spec fn spec_first_hit_at(self, idx: int, x: int, y: int) -> bool {
        &&& 0 <= idx < self.spec_ui_buttons().len()
        &&& self.spec_ui_buttons()[idx].spec_contains_px(x, y)
        &&& forall|j: int|
            0 <= j < idx ==> !(#[trigger] self.spec_ui_buttons()[j]).spec_contains_px(x, y)
    }

    /// No element of the current scene contains the pixel point.
    pub open spec fn spec_no_hit(self, x: int, y: int) -> bool {
        forall|j: int|
            0 <= j < self.spec_ui_buttons().len() ==> !(
            #[trigger] self.spec_ui_buttons()[j]).spec_contains_px(x, y)
    }

    /// Index of the first element of the current scene whose rectangle
    /// contains the pixel point, scanning in insertion order; none when no
    /// element contains it. Containment is inclusive on all four edges.
    pub fn click_event(&self, mouse_x: i64, mouse_y: i64) -> (r: Option<usize>)
        ensures
            match r {
                Some(idx) => self.spec_first_hit_at(idx as int, mouse_x as int, mouse_y as int),
                None => self.spec_no_hit(mouse_x as int, mouse_y as int),
            },
    {
        match self.current_scene {
            SceneId::Start => {
                if self.start.start_button.cursor_in_container(mouse_x, mouse_y) {
                    Some(0)
                } else {
                    None
                }
            },
            SceneId::LevelSelect => first_hit(
                &self.level_select.level_buttons,
                mouse_x,
                mouse_y,
            ),
            SceneId::MidLevel => None,
        }
    }

    /// Copies of the current scene's clickable elements, in insertion
    /// order, for the renderer.
    pub fn get_ui_elements(&self) -> (r: Vec<UIElement>)
        ensures
            r@.len() == self.spec_ui_buttons().len(),
            forall|i: int|
                0 <= i < r@.len() ==> #[trigger] r@[i] == UIElement::Button(
                    self.spec_ui_buttons()[i],
                ),
    {
        let mut elements: Vec<UIElement> = Vec::new();
        match self.current_scene {
            SceneId::Start => {
                elements.push(UIElement::Button(self.start.start_button.duplicate()));
            },
            SceneId::LevelSelect => {
                let buttons = &self.level_select.level_buttons;
                let n = buttons.len();
                let mut i: usize = 0;
                while i < n
                    invariant
                        i <= n,
                        n == buttons@.len(),
                        elements@.len() == i,
                        forall|k: int|
                            0 <= k < i ==> #[trigger] elements@[k] == UIElement::Button(
                                buttons@[k],
                            ),
                    decreases n - i,
                {
                    elements.push(UIElement::Button(buttons[i].duplicate()));
                    i = i + 1;
                }
            },
            SceneId::MidLevel => {},
        }
        elements
    }

    /// Resolves a matched index back to a copy of its element.
    pub fn get_ui_element(&self, idx: usize) -> (r: Option<UIElement>)
        ensures
            idx < self.spec_ui_buttons().len() ==> r == Some(
                UIElement::Button(self.spec_ui_buttons()[idx as int]),
            ),
            idx >= self.spec_ui_buttons().len() ==> r is None,
    {
        match self.current_scene {
            SceneId::Start => {
                if idx == 0 {
                    Some(UIElement::Button(self.start.start_button.duplicate()))
                } else {
                    None
                }
            },
            SceneId::LevelSelect => {
                if idx < self.level_select.level_buttons.len() {
                    Some(UIElement::Button(self.level_select.level_buttons[idx].duplicate()))
                } else {
                    None
                }
            },
            SceneId::MidLevel => None,
        }
    }

    /// Whether some player in `roster` is named `name`.
    pub open spec fn spec_has_player(roster: Seq<Player>, name: Seq<char>) -> bool {
        exists|i: int| 0 <= i < roster.len() && roster[i].name@ == name
    }

    /// Everything but the roster is unchanged.
    pub open spec fn same_but_players(pre: Game, post: Game) -> bool {
        &&& post.start == pre.start
        &&& post.level_select == pre.level_select
        &&& post.mid_level == pre.mid_level
        &&& post.current_scene == pre.current_scene
    }

    /// Appends a player to the roster. Fails with `PlayerAlreadyExists`,
    /// leaving the roster unchanged, if a player of that name
    /// (case-sensitive, exact match) is already present.
    pub fn add_player(&mut self, player: Player) -> (r: Result<(), GameError>)
        ensures
            Self::same_but_players(*old(self), *final(self)),
            r is Ok <==> !Self::spec_has_player(old(self).players@, player.name@),
            r is Ok ==> final(self).players@ == old(self).players@.push(player),
            r matches Err(e) ==> e == GameError::PlayerAlreadyExists && *final(self) == *old(
                self,
            ),
            old(self).wf() ==> final(self).wf(),
    {
        let n = self.players.len();
        let mut i: usize = 0;
        while i < n
            invariant
                i <= n,
                n == self.players@.len(),
                *self == *old(self),
                forall|k: int| 0 <= k < i ==> self.players@[k].name@ != player.name@,
            decreases n - i,
        {
            if self.players[i].name == player.name {
                return Err(GameError::PlayerAlreadyExists);
            }
            i = i + 1;
        }
        self.players.push(player);
        Ok(())
    }

    /// Removes every player with the given name (case-sensitive). Fails
    /// with `PlayerDoesNotExist`, leaving the roster unchanged, if no
    /// player matched.
    pub fn remove_player(&mut self, name: &str) -> (r: Result<(), GameError>)
        ensures
            Self::same_but_players(*old(self), *final(self)),
            r is Ok <==> Self::spec_has_player(old(self).players@, name@),
            final(self).players@ == spec_roster_without(old(self).players@, name@),
            r matches Err(e) ==> e == GameError::PlayerDoesNotExist && final(self).players@
                == old(self).players@,
            old(self).wf() ==> final(self).wf(),
    {
        let key = String::from_str(name);
        let n0 = self.players.len();
        let ghost roster0 = self.players@;
        let mut i: usize = 0;
        proof {
            assert(roster0.subrange(0, 0) =~= Seq::<Player>::empty());
            assert(roster0.skip(0) =~= roster0);
            assert(Seq::<Player>::empty() + spec_roster_without(roster0, name@)
                =~= spec_roster_without(roster0, name@));
        }
        while i < self.players.len()
            invariant
                i <= self.players@.len(),
                key@ == name@,
                roster0 == old(self).players@,
                self.players@.len() <= roster0.len(),
                n0 == roster0.len(),
                spec_roster_without(roster0, name@) == self.players@.subrange(0, i as int)
                    + spec_roster_without(self.players@.skip(i as int), name@),
                forall|k: int| 0 <= k < i ==> self.players@[k].name@ != name@,
                self.start == old(self).start,
                self.level_select == old(self).level_select,
                self.mid_level == old(self).mid_level,
                self.current_scene == old(self).current_scene,
            decreases self.players@.len() - i,
        {
            let ghost pre = self.players@;
            if self.players[i].name == key {
                self.players.remove(i);
                proof {
                    assert(self.players@.subrange(0, i as int) =~= pre.subrange(0, i as int));
                    assert(self.players@.skip(i as int) =~= pre.skip(i as int).drop_first());
                    assert(pre.skip(i as int)[0] == pre[i as int]);
                    assert(spec_roster_without(pre.skip(i as int), name@)
                        == spec_roster_without(self.players@.skip(i as int), name@));
                }
            } else {
                proof {
                    assert(pre.skip(i as int)[0] == pre[i as int]);
                    assert(pre.skip(i as int).drop_first() =~= pre.skip(i as int + 1));
                    assert(spec_roster_without(pre.skip(i as int), name@) == seq![pre[i as int]]
                        + spec_roster_without(pre.skip(i as int + 1), name@));
                    assert(pre.subrange(0, i as int + 1) =~= pre.subrange(0, i as int) + seq![
                        pre[i as int],
                    ]);
                    assert(pre.subrange(0, i as int) + (seq![pre[i as int]]
                        + spec_roster_without(pre.skip(i as int + 1), name@)) =~= (pre.subrange(
                        0,
                        i as int,
                    ) + seq![pre[i as int]]) + spec_roster_without(pre.skip(i as int + 1), name@));
                }
                i = i + 1;
            }
        }
        proof {
            assert(self.players@.skip(i as int) =~= Seq::<Player>::empty());
            assert(self.players@.subrange(0, i as int) =~= self.players@);
            assert(self.players@ + Seq::<Player>::empty() =~= self.players@);
            assert(self.players@ == spec_roster_without(roster0, name@));
            lemma_roster_without_len(roster0, name@);
        }
        if self.players.len() == n0 {
            Err(GameError::PlayerDoesNotExist)
        } else {
            Ok(())
        }
    }
}

/// Index of the first button in `buttons` whose rectangle contains the
/// pixel point, in order; none when no button contains it.
fn first_hit(buttons: &Vec<Button>, x: i64, y: i64) -> (r: Option<usize>)
    ensures
        match r {
            Some(idx) => {
                &&& (idx as int) < buttons@.len()
                &&& buttons@[idx as int].spec_contains_px(x as int, y as int)
                &&& forall|j: int|
                    0 <= j < idx ==> !(#[trigger] buttons@[j]).spec_contains_px(
                        x as int,
                        y as int,
                    )
            },
            None => forall|j: int|
                0 <= j < buttons@.len() ==> !(#[trigger] buttons@[j]).spec_contains_px(
                    x as int,
                    y as int,
                ),
        },
{
    let n = buttons.len();
    let mut i: usize = 0;
    while i < n
        invariant
            i <= n,
            n == buttons@.len(),
            forall|j: int| 0 <= j < i ==> !(#[trigger] buttons@[j]).spec_contains_px(
                x as int,
                y as int,
            ),
        decreases n - i,
    {
        if buttons[i].cursor_in_container(x, y) {
            return Some(i);
        }
        i = i + 1;
    }
    None
}

} // verus!
