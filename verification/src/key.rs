use vstd::prelude::*;

verus! {

/// A physical key code, as the editing model sees it.
///
/// The host maps its own key-code type onto this one before handing events
/// to the model; only the keys that take part in text navigation are named,
/// and any other key is carried as [`Key::Other`] with an opaque scan value
/// so that user bindings can still refer to it.
#[derive(Debug, Clone, Copy, PartialEq, Eq, Structural)]
pub enum Key {
    /// The left arrow key.
    ArrowLeft,
    /// The right arrow key.
    ArrowRight,
    /// The up arrow key.
    ArrowUp,
    /// The down arrow key.
    ArrowDown,
    /// The Home key.
    Home,
    /// The End key.
    End,
    /// The Backspace key.
    Backspace,
    /// The Backspace key on the numeric pad.
    NumpadBackspace,
    /// The Delete key.
    Delete,
    /// The Enter key.
    Enter,
    /// The Enter key on the numeric pad.
    NumpadEnter,
    /// The left Control key.
    ControlLeft,
    /// The right Control key.
    ControlRight,
    /// The left Shift key.
    ShiftLeft,
    /// The right Shift key.
    ShiftRight,
    /// The left Alt key.
    AltLeft,
    /// The right Alt key.
    AltRight,
    /// The left Super (command) key.
    SuperLeft,
    /// The right Super (command) key.
    SuperRight,
    /// Any other key, identified by a host-assigned code.
    Other(u32),
}

} // verus!
