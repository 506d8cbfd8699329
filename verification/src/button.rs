//! Buttons: labelled clickable regions that fire a fixed game event.

use vstd::prelude::*;
use vstd::string::StringExecFns;

use crate::game::GameError;
use crate::game::GameEvent;
use crate::game::UIEvent;
use crate::geometry::point_in_rect;
use crate::geometry::spec_point_in_rect;

verus! {

/// A clickable rectangle with a text label. Clicking it produces its fixed
/// activation event. Corners are in grid units.
pub struct Button {
    pub text: String,
    pub top_left: (i32, i32),
    pub bottom_right: (i32, i32),
    pub activation_event: GameEvent,
}

impl Button {
    pub fn new(
        text: &str,
        top_left: (i32, i32),
        bottom_right: (i32, i32),
        activation_event: GameEvent,
    ) -> (r: Button)
        ensures
            r.text@ == text@,
            r.top_left == top_left,
            r.bottom_right == bottom_right,
            r.activation_event == activation_event,
    {
        Button { text: String::from_str(text), top_left, bottom_right, activation_event }
    }

    pub fn get_label(&self) -> (r: &str)
        ensures
            r@ == self.text@,
    {
        self.text.as_str()
    }

    /// The button's debug name: `Button` followed by its label.
    pub fn get_name(&self) -> (r: String)
        ensures
            r@ == "Button"@ + self.text@,
    {
        let mut s = String::from_str("Button");
        s.append(self.text.as_str());
        s
    }

    /// A field-for-field copy of the button.
    pub fn duplicate(&self) -> (r: Button)
        ensures
            r == *self,
    {
        Button {
            text: self.text.clone(),
            top_left: self.top_left,
            bottom_right: self.bottom_right,
            activation_event: self.activation_event,
        }
    }

    /// Reacts to a UI event: the start-button click is answered with the
    /// start-game event.
    pub fn update(&self, event: UIEvent) -> (r: Result<Option<GameEvent>, GameError>)
        ensures
            event is ClickStartButton ==> r == Result::<Option<GameEvent>, GameError>::Ok(
                Some(GameEvent::StartGame),
            ),
    {
        match event {
            UIEvent::ClickStartButton => Ok(Some(GameEvent::StartGame)),
        }
    }

    /// A button needs no further interaction once clicked.
    pub fn is_selectable(&self) -> (r: bool)
        ensures
            r == false,
    {
        false
    }

    pub fn get_top_left(&self) -> (r: (i32, i32))
        ensures
            r == self.top_left,
    {
        self.top_left
    }

    pub fn get_bottom_right(&self) -> (r: (i32, i32))
        ensures
            r == self.bottom_right,
    {
        self.bottom_right
    }

    /// Clicking a button yields its activation event.
    pub fn click_event(&self) -> (r: Option<GameEvent>)
        ensures
            r == Some(self.activation_event),
    {
        Some(self.activation_event)
    }

    /// The button's rectangle in grid units: `(x1, y1, x2, y2)`.
    pub fn get_container(&self) -> (r: (i32, i32, i32, i32))
        ensures
            r == (self.top_left.0, self.top_left.1, self.bottom_right.0, self.bottom_right.1),
    {
        (self.top_left.0, self.top_left.1, self.bottom_right.0, self.bottom_right.1)
    }

    /// Whether the pixel point `(x, y)` lies in this button's rectangle,
    /// inclusive on all four edges.
    pub open spec fn spec_contains_px(self, x: int, y: int) -> bool {
        spec_point_in_rect(self.top_left, self.bottom_right, x, y)
    }

    /// The button's rectangle in pixels: `(x1, y1, x2, y2)`.
    pub fn get_container_coords(&self) -> (r: (i64, i64, i64, i64))
        ensures
            r.0 == crate::geometry::spec_to_px(self.top_left.0 as int),
            r.1 == crate::geometry::spec_to_px(self.top_left.1 as int),
            r.2 == crate::geometry::spec_to_px(self.bottom_right.0 as int),
            r.3 == crate::geometry::spec_to_px(self.bottom_right.1 as int),
    {
        (
            crate::geometry::to_px(self.top_left.0),
            crate::geometry::to_px(self.top_left.1),
            crate::geometry::to_px(self.bottom_right.0),
            crate::geometry::to_px(self.bottom_right.1),
        )
    }

    /// Inclusive test of a pixel point against the button's rectangle.
    pub fn cursor_in_container(&self, mouse_x: i64, mouse_y: i64) -> (r: bool)
        ensures
            r == self.spec_contains_px(mouse_x as int, mouse_y as int),
    {
        point_in_rect(self.top_left, self.bottom_right, mouse_x, mouse_y)
    }
}

} // verus!
