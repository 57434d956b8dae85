use vstd::prelude::*;

verus! {

/// A button of the pointer.
#[derive(Clone, Copy, Debug, PartialEq, Eq, Structural)]
pub enum MouseButton {
    Left,
    Right,
    Other,
}

/// A key of the keyboard, as far as the simulation tells keys apart.
#[derive(Clone, Copy, Debug, PartialEq, Eq, Structural)]
pub enum Key {
    /// `R`: clears the grid.
    R,
    /// `S`: starts the simulation.
    S,
    /// `P`: pauses the simulation.
    P,
    Other,
}

/// What the window reports to the simulation.
#[derive(Clone, Copy, Debug, PartialEq, Eq, Structural)]
pub enum InputEvent {
    /// The pointer moved to a screen position.
    CursorMoved { x: i64, y: i64 },
    /// A button went down (`pressed`) or came up.
    MouseInput { button: MouseButton, pressed: bool },
    /// A key went down.
    KeyPressed { key: Key },
    /// Anything else.
    Other,
}

} // verus!
