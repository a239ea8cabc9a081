//! The normalised input event: one per step of the engine.

use vstd::prelude::*;
use crate::numeric::saturate;
use crate::numeric::saturating_difference;
use crate::primitives::ScreenSpace;
use crate::primitives::Vector2;

verus! {

/// The pointer button that an event reports.
#[derive(Clone, Copy, Debug, PartialEq, Eq)]
pub enum MouseButton {
    NoButton,
    Left,
    Right,
}

/// What the user did since the last step. Positions and displacements are
/// in SCREEN space; a zoom delta is counted in thousandths.
#[derive(Clone, Copy, Debug, PartialEq, Eq)]
pub enum UserInput {
    Nothing,
    MouseClick { position: Vector2<ScreenSpace>, button: MouseButton, is_shift_down: bool },
    MouseMove {
        position: Vector2<ScreenSpace>,
        delta: Vector2<ScreenSpace>,
        button: MouseButton,
        is_shift_down: bool,
    },
    SelectAll,
    DeselectAll,
    Zoom { delta: i32 },
    Pan { delta: Vector2<ScreenSpace> },
    Delete,
}

impl UserInput {
    /// The pointer position, for the events that carry one.
    pub open spec fn spec_mouse_position(&self) -> Option<Vector2<ScreenSpace>> {
        match *self {
            UserInput::MouseClick { position, .. } => Some(position),
            UserInput::MouseMove { position, .. } => Some(position),
            _ => None,
        }
    }

    /// The pointer movement, for the events that carry one.
    pub open spec fn spec_mouse_delta(&self) -> Option<Vector2<ScreenSpace>> {
        match *self {
            UserInput::MouseMove { delta, .. } => Some(delta),
            _ => None,
        }
    }

    /// Whether the event says that no pointer button is held: a move with
    /// no button, or any event that is not a pointer event.
    pub open spec fn spec_mouse_is_up(&self) -> bool {
        match *self {
            UserInput::MouseMove { button, .. } => button == MouseButton::NoButton,
            UserInput::MouseClick { .. } => false,
            _ => true,
        }
    }

    /// Whether the event is a click of the primary button.
    pub open spec fn spec_is_left_click(&self) -> bool {
        match *self {
            UserInput::MouseClick { button, .. } => button == MouseButton::Left,
            _ => false,
        }
    }

    /// Whether the event is a click made with shift held.
    pub open spec fn spec_is_shift_click(&self) -> bool {
        match *self {
            UserInput::MouseClick { is_shift_down, .. } => is_shift_down,
            _ => false,
        }
    }

    #[verifier::when_used_as_spec(spec_mouse_position)]
    pub fn mouse_position(&self) -> (r: Option<Vector2<ScreenSpace>>)
        ensures
            r == self.spec_mouse_position(),
    {
        match *self {
            UserInput::MouseClick { position, .. } => Some(position),
            UserInput::MouseMove { position, .. } => Some(position),
            _ => None,
        }
    }

    #[verifier::when_used_as_spec(spec_mouse_delta)]
    pub fn mouse_delta(&self) -> (r: Option<Vector2<ScreenSpace>>)
        ensures
            r == self.spec_mouse_delta(),
    {
        match *self {
            UserInput::MouseMove { delta, .. } => Some(delta),
            _ => None,
        }
    }

    #[verifier::when_used_as_spec(spec_mouse_is_up)]
    pub fn mouse_is_up(&self) -> (r: bool)
        ensures
            r == self.spec_mouse_is_up(),
    {
        match *self {
            UserInput::MouseMove { button, .. } => matches!(button, MouseButton::NoButton),
            UserInput::MouseClick { .. } => false,
            _ => true,
        }
    }

    #[verifier::when_used_as_spec(spec_is_left_click)]
    pub fn is_left_click(&self) -> (r: bool)
        ensures
            r == self.spec_is_left_click(),
    {
        match *self {
            UserInput::MouseClick { button, .. } => matches!(button, MouseButton::Left),
            _ => false,
        }
    }

    #[verifier::when_used_as_spec(spec_is_shift_click)]
    pub fn is_shift_click(&self) -> (r: bool)
        ensures
            r == self.spec_is_shift_click(),
    {
        match *self {
            UserInput::MouseClick { is_shift_down, .. } => is_shift_down,
            _ => false,
        }
    }
}

/// The raw pointer and keyboard state of one frame, as the host reads it.
#[derive(Clone, Copy, Debug, PartialEq, Eq)]
pub struct RawInput {
    /// Scroll-wheel movement as a zoom delta in thousandths; zero when the
    /// wheel did not move.
    pub wheel_delta: i32,
    pub select_all_pressed: bool,
    pub escape_pressed: bool,
    pub delete_pressed: bool,
    pub primary_clicked: bool,
    pub secondary_clicked: bool,
    pub primary_dragged: bool,
    pub secondary_dragged: bool,
    pub middle_dragged: bool,
    pub hovered: bool,
    /// Where the pointer interacts with the canvas, if it does.
    pub interact_position: Option<Vector2<ScreenSpace>>,
    /// Where the pointer hovers over the canvas, if it does.
    pub hover_position: Option<Vector2<ScreenSpace>>,
    pub drag_delta: Vector2<ScreenSpace>,
    pub is_shift_down: bool,
}

/// The one event that a frame's raw state stands for. Precedence: wheel,
/// select-all, escape, delete, primary click, secondary click, primary drag,
/// secondary drag, middle drag (a pan against the drag), hover, nothing. A
/// click or drag without an interaction position falls through to the next
/// rule.
pub open spec fn spec_map_user_input(raw: RawInput) -> UserInput {
    if raw.wheel_delta != 0 {
        UserInput::Zoom { delta: raw.wheel_delta }
    } else if raw.select_all_pressed {
        UserInput::SelectAll
    } else if raw.escape_pressed {
        UserInput::DeselectAll
    } else if raw.delete_pressed {
        UserInput::Delete
    } else if raw.primary_clicked && raw.interact_position is Some {
        UserInput::MouseClick {
            position: raw.interact_position->0,
            button: MouseButton::Left,
            is_shift_down: raw.is_shift_down,
        }
    } else if raw.secondary_clicked && raw.interact_position is Some {
        UserInput::MouseClick {
            position: raw.interact_position->0,
            button: MouseButton::Right,
            is_shift_down: raw.is_shift_down,
        }
    } else if raw.primary_dragged && raw.interact_position is Some {
        UserInput::MouseMove {
            position: raw.interact_position->0,
            delta: raw.drag_delta,
            button: MouseButton::Left,
            is_shift_down: raw.is_shift_down,
        }
    } else if raw.secondary_dragged && raw.interact_position is Some {
        UserInput::MouseMove {
            position: raw.interact_position->0,
            delta: raw.drag_delta,
            button: MouseButton::Right,
            is_shift_down: raw.is_shift_down,
        }
    } else if raw.middle_dragged {
        UserInput::Pan {
            delta: Vector2::spec_new(saturate(-raw.drag_delta.x), saturate(-raw.drag_delta.y)),
        }
    } else if raw.hovered && raw.hover_position is Some {
        UserInput::MouseMove {
            position: raw.hover_position->0,
            delta: raw.drag_delta,
            button: MouseButton::NoButton,
            is_shift_down: raw.is_shift_down,
        }
    } else {
        UserInput::Nothing
    }
}

/// Turns a frame's raw pointer and keyboard state into its one event.
pub fn map_user_input(raw: &RawInput) -> (r: UserInput)
    ensures
        r == spec_map_user_input(*raw),
{
    if raw.wheel_delta != 0 {
        return UserInput::Zoom { delta: raw.wheel_delta };
    }
    if raw.select_all_pressed {
        return UserInput::SelectAll;
    }
    if raw.escape_pressed {
        return UserInput::DeselectAll;
    }
    if raw.delete_pressed {
        return UserInput::Delete;
    }
    let is_shift_down = raw.is_shift_down;
    if raw.primary_clicked {
        if let Some(position) = raw.interact_position {
            return UserInput::MouseClick { position, button: MouseButton::Left, is_shift_down };
        }
    }
    if raw.secondary_clicked {
        if let Some(position) = raw.interact_position {
            return UserInput::MouseClick { position, button: MouseButton::Right, is_shift_down };
        }
    }
    if raw.primary_dragged {
        if let Some(position) = raw.interact_position {
            return UserInput::MouseMove {
                position,
                delta: raw.drag_delta,
                button: MouseButton::Left,
                is_shift_down,
            };
        }
    }
    if raw.secondary_dragged {
        if let Some(position) = raw.interact_position {
            return UserInput::MouseMove {
                position,
                delta: raw.drag_delta,
                button: MouseButton::Right,
                is_shift_down,
            };
        }
    }
    if raw.middle_dragged {
        return UserInput::Pan {
            delta: Vector2::new(
                saturating_difference(0, raw.drag_delta.x),
                saturating_difference(0, raw.drag_delta.y),
            ),
        };
    }
    if raw.hovered {
        if let Some(position) = raw.hover_position {
            return UserInput::MouseMove {
                position,
                delta: raw.drag_delta,
                button: MouseButton::NoButton,
                is_shift_down,
            };
        }
    }
    UserInput::Nothing
}

} // verus!
