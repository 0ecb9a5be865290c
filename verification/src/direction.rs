//! Where keyboard focus comes from when it reaches a widget.

use vstd::prelude::*;

verus! {

/// The side from which focus enters a widget. `Front` and `Back` follow the
/// reading order (tab and back-tab); the other four follow the screen.
#[derive(Clone, Copy, Debug, PartialEq, Eq, Structural)]
pub enum Direction {
    /// Focus was given outright, from no side in particular.
    Unspecified,
    Front,
    Back,
    Left,
    Right,
    Up,
    Down,
}

} // verus!
