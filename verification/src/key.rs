//! Keys as the editor receives them from the terminal.
use vstd::prelude::*;

verus! {

/// A key press.
#[derive(Copy, Clone, Debug, PartialEq, Eq, Structural)]
pub enum Key {
    Tab,
    Enter,
    Esc,
    Backspace,
    Right,
    Left,
    Up,
    Down,
    CtrlRight,
    CtrlLeft,
    CtrlUp,
    CtrlDown,
    Delete,
    Insert,
    Home,
    End,
    PageUp,
    PageDown,
    /// A printable character.
    Char(char),
    /// A character typed with the control key held.
    Ctrl(char),
    /// A function key, by its number.
    F(u32),
    /// A key code that has no name here.
    Unknown(u16),
}

} // verus!
