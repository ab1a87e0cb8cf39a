//! A key event as the state machine reads it.

use vstd::prelude::*;

verus! {

/// Which key it was.
#[derive(Debug, Copy, Clone, PartialEq, Eq, Structural)]
pub enum KeyCode {
    Char(char),
    Enter,
    Esc,
    Backspace,
    /// Any other key.
    Other,
}

/// Which modifier keys were held.
#[derive(Debug, Copy, Clone, PartialEq, Eq, Structural)]
pub enum Modifiers {
    /// None of them.
    Plain,
    /// Alt alone.
    Alt,
    /// Shift alone.
    Shift,
    /// Control alone.
    Control,
    /// Several, or another one.
    Mixed,
}

/// One key event.
#[derive(Debug, Copy, Clone, PartialEq, Eq, Structural)]
pub struct Key {
    pub code: KeyCode,
    pub modifiers: Modifiers,
    /// Whether the key went down (and not up, or on repeating).
    pub pressed: bool,
}

impl Key {
    /// The event is a press of the character `c` with exactly the
    /// modifiers `m`.
    pub open spec fn is_char(self, m: Modifiers, c: char) -> bool {
        self.pressed && self.modifiers == m && self.code == KeyCode::Char(c)
    }

    /// The event is a press of `code` with exactly the modifiers `m`.
    pub open spec fn is_key(self, m: Modifiers, code: KeyCode) -> bool {
        self.pressed && self.modifiers == m && self.code == code
    }

    /// A press of the character `c` with no modifier.
    pub fn plain(c: char) -> (k: Key)
        ensures
            k == (Key { code: KeyCode::Char(c), modifiers: Modifiers::Plain, pressed: true }),
    {
        Key { code: KeyCode::Char(c), modifiers: Modifiers::Plain, pressed: true }
    }

    /// A press of `code` with the modifiers `modifiers`.
    pub fn press(code: KeyCode, modifiers: Modifiers) -> (k: Key)
        ensures
            k == (Key { code, modifiers, pressed: true }),
    {
        Key { code, modifiers, pressed: true }
    }

    /// The character of a pressed key with exactly the modifiers `m`.
    pub open spec fn char_with(self, m: Modifiers) -> Option<char> {
        if self.pressed && self.modifiers == m {
            match self.code {
                KeyCode::Char(c) => Some(c),
                _ => None,
            }
        } else {
            None
        }
    }

    pub fn pressed_char(&self, m: Modifiers) -> (r: Option<char>)
        ensures
            r == self.char_with(m),
    {
        if self.pressed && self.modifiers == m {
            match self.code {
                KeyCode::Char(c) => Some(c),
                _ => None,
            }
        } else {
            None
        }
    }

    pub fn pressed_key(&self, m: Modifiers, code: KeyCode) -> (r: bool)
        ensures
            r == self.is_key(m, code),
    {
        self.pressed && self.modifiers == m && self.code == code
    }
}

} // verus!
