//! Terminal events, as the terminal driver hands them over.

use vstd::prelude::*;

verus! {

/// The key of a key press, as far as the components tell keys apart.
#[derive(Debug, Clone, Copy, PartialEq, Eq, Structural)]
pub enum KeyCode {
    Char(char),
    Up,
    Down,
    Enter,
    Other,
}

/// A key press.
#[derive(Debug, Clone, Copy, PartialEq, Eq, Structural)]
pub struct KeyEvent {
    pub code: KeyCode,
    /// Whether shift was held.
    pub shift: bool,
}

/// What the mouse did, as far as the components tell.
#[derive(Debug, Clone, Copy, PartialEq, Eq, Structural)]
pub enum MouseEventKind {
    ScrollUp,
    ScrollDown,
    Other,
}

/// A mouse event.
#[derive(Debug, Clone, Copy, PartialEq, Eq, Structural)]
pub struct MouseEvent {
    pub kind: MouseEventKind,
}

/// A rectangle of the terminal.
#[derive(Debug, Clone, Copy, PartialEq, Eq, Structural)]
pub struct Rect {
    pub x: u16,
    pub y: u16,
    pub width: u16,
    pub height: u16,
}

/// A terminal event.
#[derive(Debug, Clone, Copy, PartialEq, Eq, Structural)]
pub enum Event {
    Quit,
    Tick,
    Render,
    Resize(u16, u16),
    Key(KeyEvent),
    Mouse(MouseEvent),
    /// Any event that no part of the core reads.
    Other,
}

impl KeyCode {
    /// The keys that step down a list.
    pub open spec fn steps_down(self) -> bool {
        self == KeyCode::Char('j') || self == KeyCode::Down
    }

    /// The keys that step up a list.
    pub open spec fn steps_up(self) -> bool {
        self == KeyCode::Char('k') || self == KeyCode::Up
    }

    /// The keys that open the selected entry.
    pub open spec fn opens(self) -> bool {
        self == KeyCode::Char('l') || self == KeyCode::Enter
    }
}

} // verus!
