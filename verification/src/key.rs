//! The keys that the program tells apart.

use vstd::prelude::*;

verus! {

/// One key press. Every key that has no meaning anywhere in the program is
/// `Other`.
#[derive(Clone, Copy, Debug, PartialEq, Eq, Structural)]
pub enum Key {
    Char(char),
    Enter,
    Backspace,
    Esc,
    Up,
    Down,
    Left,
    Right,
    Other,
}

/// The character that asks the program to end, wherever characters are not
/// taken as text.
pub const QUIT_CHAR: char = 'q';

} // verus!
