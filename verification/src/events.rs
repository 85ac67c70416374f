//! Input events as the core consumes them.
//!
//! The unverified shell decodes whatever the terminal delivers into these
//! plain values; a sequence it cannot decode is dropped before it reaches
//! the core.

use vstd::prelude::*;

verus! {

/// The keys the view layer distinguishes. Anything else arrives as
/// `Unknown` and falls through untouched.
#[derive(Clone, Copy, PartialEq, Eq, Structural, Debug)]
pub enum KeyCode {
    Char(char),
    Enter,
    Escape,
    Up,
    Down,
    Left,
    Right,
    Home,
    End,
    Backspace,
    Delete,
    Unknown,
}

/// One keystroke: the key and whether Control was held.
#[derive(Clone, Copy, PartialEq, Eq, Structural, Debug)]
pub struct KeyEvent {
    pub code: KeyCode,
    pub ctrl: bool,
}

/// What a mouse event did; the core consumes and discards these.
#[derive(Clone, Copy, PartialEq, Eq, Structural, Debug)]
pub enum MouseKind {
    Press,
    Release,
    Drag,
    Scroll,
}

/// An event from the terminal: a keystroke, a mouse action, a resize, or a
/// periodic tick that only forces a redraw.
#[derive(Clone, Copy, PartialEq, Eq, Structural, Debug)]
pub enum Event {
    Key(KeyEvent),
    Mouse { kind: MouseKind, col: u16, row: u16 },
    Resize { cols: u16, rows: u16 },
    Tick,
}

} // verus!
