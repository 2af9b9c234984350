//! Keyboard keys as plain values.
use vstd::prelude::*;

verus! {

/// One unit of keyboard input: a character, a modified character, a
/// navigation or editing key, a function key or escape.
#[derive(PartialEq, Eq, Structural, Clone, Copy, Debug)]
pub enum Key {
    Backspace,
    Left,
    Right,
    Up,
    Down,
    Home,
    End,
    PageUp,
    PageDown,
    BackTab,
    Delete,
    Insert,
    F(u8),
    Char(char),
    Alt(char),
    Ctrl(char),
    Null,
    Esc,
}

/// The character key that asks the application to quit.
pub open spec fn quit_key() -> Key {
    Key::Char('q')
}

/// The key that stands for "no input" when nothing was kept.
pub open spec fn fallback_key() -> Key {
    Key::Home
}

/// The key that conventionally interrupts the application.
pub open spec fn interrupt_key() -> Key {
    Key::Ctrl('c')
}

/// Keys after which the keyboard reader stops: the quit character and escape.
pub open spec fn ends_input(k: Key) -> bool {
    k == quit_key() || k == Key::Esc
}

/// Tells whether the keyboard reader stops after forwarding `k`.
pub fn is_exit_key(k: &Key) -> (r: bool)
    ensures
        r == ends_input(*k),
{
    match k {
        Key::Char(c) => *c == 'q',
        Key::Esc => true,
        _ => false,
    }
}

} // verus!
