//! Input events.
use crate::shapes::Point;
use vstd::prelude::*;

verus! {

/// Whether a button is up or down.
#[derive(Debug, Clone, Copy, PartialEq, Eq, Structural)]
pub enum ButtonState {
    Released,
    Pressed,
}

impl Default for ButtonState {
    fn default() -> (r: Self)
        ensures
            r == ButtonState::Released,
    {
        ButtonState::Released
    }
}

/// A mouse button.
#[derive(Debug, Clone, Copy, PartialEq, Eq, Structural)]
pub enum MouseButton {
    Left,
    Middle,
    Right,
}

/// An input event.
#[derive(Clone, Copy, Debug, PartialEq, Eq, Structural)]
pub enum Event {
    /// No input since the last update.
    Empty,
    CursorMove { position: Point },
    MouseButton { button: MouseButton, state: ButtonState },
    /// A turn of the scroll wheel, in the platform's raw wheel units: a
    /// multiple of the wheel delta (120) per notch.
    ScrollWheel { x: i16, y: i16 },
    Char { codepoint: char },
}

} // verus!
