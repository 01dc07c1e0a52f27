//! Terminal input as the client's logic reads it: key codes, modifier bits,
//! mouse scrolling and resizes.

use vstd::prelude::*;

verus! {

/// The key of a key press.
#[derive(Debug, Clone, Copy, PartialEq, Eq, Structural)]
pub enum KeyCode {
    Backspace,
    Enter,
    Left,
    Right,
    Up,
    Down,
    Home,
    End,
    PageUp,
    PageDown,
    Tab,
    BackTab,
    Delete,
    Insert,
    F(u8),
    Char(char),
    Null,
    Esc,
    /// Any other key (lock keys, media keys, lone modifiers).
    Other,
}

/// Modifier bit of the Shift key.
pub const SHIFT: u8 = 1;

/// Modifier bit of the Control key.
pub const CONTROL: u8 = 2;

/// Modifier bit of the Alt key.
pub const ALT: u8 = 4;

/// A key press (or repeat): its key and its modifier bits.
#[derive(Debug, Clone, Copy, PartialEq, Eq, Structural)]
pub struct KeyPress {
    pub code: KeyCode,
    pub modifiers: u8,
}

/// Whether the Shift bit is set.
pub open spec fn has_shift(modifiers: u8) -> bool {
    modifiers & SHIFT != 0
}

/// Whether `modifiers` holds the Shift bit.
pub fn shift_held(modifiers: u8) -> (b: bool)
    ensures
        b == has_shift(modifiers),
{
    modifiers & SHIFT != 0
}

/// The kind of a mouse event.
#[derive(Debug, Clone, Copy, PartialEq, Eq, Structural)]
pub enum MouseKind {
    ScrollUp,
    ScrollDown,
    Other,
}

/// A terminal input event.
#[derive(Debug, Clone, Copy, PartialEq)]
pub enum InputEvent {
    Key(KeyPress),
    Mouse(MouseKind),
    /// New width and height.
    Resize(u16, u16),
    /// Focus changes and pastes.
    Other,
}

} // verus!
