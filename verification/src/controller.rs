//! The controller: the decision half of the input loop.
//!
//! The window loop (an unverified collaborator) polls the cursor and the
//! mouse buttons; it hands this controller plain cursor coordinates and a
//! press signal. The controller owns the game, dispatches the press as a
//! click, records the selection, and feeds the resulting game event into
//! the scene state machine.

use vstd::prelude::*;

use crate::game::Game;
use crate::game::GameEvent;
use crate::scene::SceneId;

verus! {

/// Drives the game from raw input: it owns the game model, tracks the
/// latest cursor position in pixels, and records the selected element.
pub struct Controller {
    pub model: Game,
    pub cursor: (i64, i64),
    pub selected: Option<usize>,
}

impl Controller {
    pub fn new(model: Game) -> (r: Controller)
        ensures
            r.model == model,
            r.cursor.0 == 0 && r.cursor.1 == 0,
            r.selected is None,
    {
        Controller { model, cursor: (0, 0), selected: None }
    }

    pub fn get_model(&self) -> (r: &Game)
        ensures
            *r == self.model,
    {
        &self.model
    }

    /// Remembers the latest cursor position, in pixels.
    pub fn update_cursor(&mut self, x: i64, y: i64)
        ensures
            final(self).cursor.0 == x && final(self).cursor.1 == y,
            final(self).model == old(self).model,
            final(self).selected == old(self).selected,
    {
        self.cursor = (x, y);
    }

    /// Dispatches a mouse press at the current cursor: finds the first
    /// element of the current scene under the cursor; if it is selectable,
    /// records it as the selection; and feeds its click event, if any, into
    /// the scene state machine. Selection recording and event dispatch are
    /// independent: both happen on every matching click. A press over no
    /// element changes nothing.
    pub fn handle_press(&mut self)
        requires
            old(self).model.wf(),
        ensures
            final(self).model.wf(),
            final(self).cursor == old(self).cursor,
            old(self).model.spec_no_hit(
                old(self).cursor.0 as int,
                old(self).cursor.1 as int,
            ) ==> final(self).model == old(self).model && final(self).selected == old(
                self,
            ).selected,
            forall|idx: int|
                #[trigger] old(self).model.spec_first_hit_at(
                    idx,
                    old(self).cursor.0 as int,
                    old(self).cursor.1 as int,
                ) ==> {
                    let hit = old(self).model.spec_ui_buttons()[idx];
                    &&& final(self).selected == old(self).selected
                    &&& (hit.activation_event is StartGame ==> Game::scene_switched(
                        old(self).model,
                        final(self).model,
                        SceneId::LevelSelect,
                    ))
                    &&& (hit.activation_event is SelectLevel ==> Game::scene_switched(
                        old(self).model,
                        final(self).model,
                        SceneId::MidLevel,
                    ))
                },
    {
        let hit = self.model.click_event(self.cursor.0, self.cursor.1);
        match hit {
            None => {},
            Some(idx) => {
                let element = self.model.get_ui_element(idx);
                match element {
                    Some(el) => {
                        if el.is_selectable() {
                            self.selected = Some(idx);
                        }
                        let event = el.click_event();
                        match event {
                            Some(ev) => {
                                proof {
                                    let g = self.model;
                                    assert(Game::event_valid(g.current_scene, ev)) by {
                                        match g.current_scene {
                                            SceneId::Start => {
                                                assert(g.spec_ui_buttons()[idx as int]
                                                    == g.start.start_button);
                                            },
                                            SceneId::LevelSelect => {},
                                            SceneId::MidLevel => {},
                                        }
                                    }
                                }
                                self.model.receive_event(&ev);
                            },
                            None => {},
                        }
                    },
                    None => {},
                }
            },
        }
    }
}

} // verus!
