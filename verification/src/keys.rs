//! The library's own model of a key press: a key code plus the modifier keys
//! held with it. The widget recognizes a key only when no modifiers are held,
//! so events are compared on both parts.
use vstd::prelude::*;

verus! {

/// A key code, as the widget distinguishes them: the printable characters,
/// the arrow, paging and editing keys, and the function keys — any of which
/// can be bound as a navigation key. `Enter` is the fixed confirm key.
#[derive(Debug, PartialEq, Eq, Structural, Clone, Copy)]
pub enum KeyCode {
    Backspace,
    Enter,
    Left,
    Right,
    Up,
    Down,
    Home,
    End,
    PageUp,
    PageDown,
    Tab,
    BackTab,
    Delete,
    Insert,
    F(u8),
    Char(char),
    Null,
    Esc,
}

/// The modifier keys held during a key press.
#[derive(Debug, PartialEq, Eq, Structural, Clone, Copy)]
pub struct KeyModifiers {
    pub shift: bool,
    pub control: bool,
    pub alt: bool,
}

impl KeyModifiers {
    /// True when no modifier key is held.
    pub open spec fn is_none(self) -> bool {
        !self.shift && !self.control && !self.alt
    }

    /// The empty modifier set: no key held.
    pub fn none() -> (m: KeyModifiers)
        ensures
            m.is_none(),
            m == (KeyModifiers { shift: false, control: false, alt: false }),
    {
        KeyModifiers { shift: false, control: false, alt: false }
    }
}

/// One discrete key press: a code and the modifiers held with it.
#[derive(Debug, PartialEq, Eq, Structural, Clone, Copy)]
pub struct KeyEvent {
    pub code: KeyCode,
    pub modifiers: KeyModifiers,
}

impl KeyEvent {
    /// A key press with no modifiers held.
    pub fn plain(code: KeyCode) -> (e: KeyEvent)
        ensures
            e.code == code,
            e.modifiers.is_none(),
    {
        KeyEvent { code, modifiers: KeyModifiers::none() }
    }
}

} // verus!
