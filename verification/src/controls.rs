//! The three controls of a ship and the keys that drive them.

use vstd::prelude::*;

verus! {

/// One of the three switches a pilot holds down or lets go.
#[derive(Clone, Copy, Debug, PartialEq, Eq)]
pub enum Control {
    RotateLeft,
    RotateRight,
    Thrust,
}

/// A key of the keyboard, as far as steering cares: the three arrow keys
/// that are bound to a control, and every other key.
#[derive(Clone, Copy, Debug, PartialEq, Eq)]
pub enum Key {
    Up,
    Left,
    Right,
    Other,
}

/// Whether a key went down or came up.
#[derive(Clone, Copy, Debug, PartialEq, Eq)]
pub enum ButtonState {
    Press,
    Release,
}

impl Key {
    /// The control a key is bound to: `Up` thrusts, `Left` and `Right`
    /// rotate, and no other key is bound.
    pub open spec fn binding(self) -> Option<Control> {
        match self {
            Key::Up => Some(Control::Thrust),
            Key::Left => Some(Control::RotateLeft),
            Key::Right => Some(Control::RotateRight),
            Key::Other => None,
        }
    }

    /// The control this key is bound to, if any.
    pub fn control(self) -> (c: Option<Control>)
        ensures
            c == self.binding(),
    {
        match self {
            Key::Up => Some(Control::Thrust),
            Key::Left => Some(Control::RotateLeft),
            Key::Right => Some(Control::RotateRight),
            Key::Other => None,
        }
    }
}

impl ButtonState {
    /// Whether the button is held down after the transition.
    pub open spec fn held(self) -> bool {
        self is Press
    }

    /// Whether the button is held down after the transition.
    pub fn is_pressed(self) -> (pressed: bool)
        ensures
            pressed == self.held(),
    {
        match self {
            ButtonState::Press => true,
            ButtonState::Release => false,
        }
    }
}

} // verus!
