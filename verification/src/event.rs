//! Input events and what a widget answers to them.

use vstd::prelude::*;
use crate::geometry::Vec2;

verus! {

/// A key that produces no character.
#[derive(Clone, Copy, Debug, PartialEq, Eq, Structural)]
pub enum Key {
    Enter,
    Tab,
    Backspace,
    Esc,
    Left,
    Right,
    Up,
    Down,
    Ins,
    Del,
    Home,
    End,
    PageUp,
    PageDown,
}

/// One input event, as the dispatcher classified it.
#[derive(Clone, Copy, Debug, PartialEq, Eq, Structural)]
pub enum Event {
    /// The terminal changed size.
    WindowResize,
    /// The screen is about to be redrawn.
    Refresh,
    /// A character was typed.
    Char(char),
    /// A key without a character was pressed.
    Key(Key),
    /// A mouse button was pressed on the given cell.
    Mouse(Vec2),
}

/// A widget's answer to an event.
#[derive(Clone, Copy, Debug, PartialEq, Eq, Structural)]
pub enum EventResult {
    /// The widget has no use for the event: the caller may offer it elsewhere.
    Ignored,
    /// The widget acted on the event: it goes no further.
    Consumed,
}

impl EventResult {
    pub fn is_consumed(&self) -> (consumed: bool)
        ensures
            consumed == (*self == EventResult::Consumed),
    {
        match self {
            EventResult::Consumed => true,
            EventResult::Ignored => false,
        }
    }
}

} // verus!
