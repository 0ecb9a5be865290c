//! The region of the screen that a widget may draw into.

use vstd::prelude::*;
use crate::geometry::Vec2;

verus! {

/// A handle on a rectangle of the screen. A widget receives one for each
/// draw; what it emits is placed relative to `offset` and clipped to `size`.
#[derive(Clone, Copy, Debug, PartialEq, Eq, Structural)]
pub struct Printer {
    /// Top-left corner of the region, in screen cells.
    pub offset: Vec2,
    /// Extent of the region.
    pub size: Vec2,
    /// Whether the widget being drawn is on the focused path.
    pub focused: bool,
}

impl Printer {
    /// A focused region of the given size at the origin of the screen.
    pub fn new(size: Vec2) -> (printer: Self)
        ensures
            printer == (Printer { offset: Vec2 { x: 0, y: 0 }, size, focused: true }),
    {
        Printer { offset: Vec2 { x: 0, y: 0 }, size, focused: true }
    }
}

} // verus!
