use vstd::prelude::*;

verus! {

/// A semantic text-editing action, decoupled from any physical key.
///
/// Actions are produced by resolving a key press against a
/// [`TextInputNavigationBindings`](crate::TextInputNavigationBindings) table
/// and are consumed by the interpreter on
/// [`TextInputState`](crate::TextInputState).
#[derive(Debug, Clone, Copy, PartialEq, Eq, Structural)]
pub enum TextInputAction {
    /// Moves the cursor one codepoint to the left.
    CharLeft,
    /// Moves the cursor one codepoint to the right.
    CharRight,
    /// Moves the cursor to the start of the line.
    LineStart,
    /// Moves the cursor to the end of the line.
    LineEnd,
    /// Moves the cursor up one visual line. The model holds a single line,
    /// so this clamps to the start of the buffer.
    LineUp,
    /// Moves the cursor down one visual line. The model holds a single line,
    /// so this clamps to the end of the buffer.
    LineDown,
    /// Moves the cursor one word to the left.
    WordLeft,
    /// Moves the cursor one word to the right.
    WordRight,
    /// Removes the codepoint left of the cursor, or the selected span when a
    /// selection is active.
    DeletePrev,
    /// Removes the codepoint right of the cursor, or the selected span when a
    /// selection is active.
    DeleteNext,
    /// Emits the buffer's content, optionally clearing the buffer.
    Submit,
    /// Selects the whole buffer.
    SelectAll,
    /// Removes the selected span and hands it to the clipboard.
    Cut,
    /// Hands the selected span to the clipboard, leaving the buffer unchanged.
    Copy,
    /// Inserts the clipboard's content at the cursor.
    Paste,
    /// Restores the buffer and cursor as they were before the latest edit.
    Undo,
    /// Re-applies the edit that the latest undo took back.
    Redo,
}

} // verus!
