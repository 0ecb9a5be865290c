//! The contract between a screen element and whatever drives it.

use vstd::prelude::*;
use crate::direction::Direction;
use crate::event::{Event, EventResult};
use crate::geometry::Vec2;
use crate::printer::Printer;

verus! {

/// A screen element. A compositor drives every widget through these six
/// operations without knowing its type. For one frame it settles sizes with
/// `required_size`, hands out the final size with `layout`, then calls
/// `draw`.
///
/// No operation fails. A widget that cannot do what is asked says so in what
/// it returns: a small size, `Ignored`, `false`.
pub trait Widget {
    /// The widget's own invariant. It holds of a widget as built, every
    /// operation may rely on it, and every operation that changes the widget
    /// restores it. A widget that needs none keeps this one, which always
    /// holds.
    open spec fn well_formed(&self) -> bool {
        true
    }

    /// Draws the widget into the region: within its bounds, and within the
    /// size that the last `layout` granted. The widget is left as it was.
    fn draw(&self, printer: &Printer)
        requires
            self.well_formed(),
    ;

    /// Offers an event to the widget. `Consumed` ends the event's journey;
    /// on `Ignored` the caller may offer it to another widget.
    fn on_event(&mut self, event: Event) -> (outcome: EventResult)
        requires
            old(self).well_formed(),
        ensures
            final(self).well_formed(),
    ;

    /// Asks which size the widget wants when at most `constraint` is to be
    /// had. A widget that cannot fit may ask for more; what happens then is
    /// the caller's choice.
    fn required_size(&mut self, constraint: Vec2) -> (size: Vec2)
        requires
            old(self).well_formed(),
        ensures
            final(self).well_formed(),
    ;

    /// Tells the widget the size it was granted. The next `draw` stays
    /// within it.
    fn layout(&mut self, size: Vec2)
        requires
            old(self).well_formed(),
        ensures
            final(self).well_formed(),
    ;

    /// Offers keyboard focus, coming from `source`. On `false` the caller
    /// tries the next candidate in that direction.
    fn take_focus(&mut self, source: Direction) -> (accepted: bool)
        requires
            old(self).well_formed(),
        ensures
            final(self).well_formed(),
    ;

    /// Whether the layout is stale, so that sizes have to be settled again
    /// before the next draw. A widget that keeps no track of this always
    /// says yes.
    fn needs_relayout(&self) -> (stale: bool)
        requires
            self.well_formed(),
        default_ensures
            stale,
    {
        true
    }
}

} // verus!
