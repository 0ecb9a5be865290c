//! What follows from the contracts of `Canvas`, for any canvas and any
//! behaviors.
//!
//! Each lemma takes the canvases before and after the calls it speaks of,
//! and assumes of them what those calls ensure.

use vstd::prelude::*;
use crate::behavior::{answers, draws, updates};
use crate::canvas::{Canvas, CanvasView};
use crate::defaults::{
    default_layout, default_needs_relayout, default_on_event, default_required_size,
    default_take_focus,
};
use crate::direction::Direction;
use crate::event::{Event, EventResult};
use crate::geometry::Vec2;
use crate::printer::Printer;
use crate::widget::Widget;

verus! {

/// A canvas that still has the default event behavior ignores every event
/// and is left as it was.
pub proof fn lemma_default_on_event<T>(
    before: Canvas<T>,
    event: Event,
    after: Canvas<T>,
    outcome: EventResult,
)
    requires
        before@.on_event == updates(default_on_event::<T>),
        // `on_event(event)` led from `before` to `after` and returned `outcome`
        exists|cell: &mut T|
            #[trigger] (before@.on_event)(event, cell, outcome) && *cell == before@.state
                && *final(cell) == after@.state,
        after@ == before@.with_state(after@.state),
    ensures
        outcome == EventResult::Ignored,
        after@ == before@,
{
}

/// A canvas that still has the default sizing behavior asks for one cell,
/// whatever the constraint, and is left as it was.
pub proof fn lemma_default_required_size<T>(
    before: Canvas<T>,
    constraint: Vec2,
    after: Canvas<T>,
    size: Vec2,
)
    requires
        before@.required_size == updates(default_required_size::<T>),
        // `required_size(constraint)` led from `before` to `after` and returned `size`
        exists|cell: &mut T|
            #[trigger] (before@.required_size)(constraint, cell, size) && *cell == before@.state
                && *final(cell) == after@.state,
        after@ == before@.with_state(after@.state),
    ensures
        size == (Vec2 { x: 1, y: 1 }),
        after@ == before@,
{
}

/// A canvas that still has the default layout behavior is left as it was
/// by a layout.
pub proof fn lemma_default_layout<T>(before: Canvas<T>, size: Vec2, after: Canvas<T>)
    requires
        before@.layout == updates(default_layout::<T>),
        // `layout(size)` led from `before` to `after`
        exists|cell: &mut T|
            #[trigger] (before@.layout)(size, cell, ()) && *cell == before@.state && *final(cell)
                == after@.state,
        after@ == before@.with_state(after@.state),
    ensures
        after@ == before@,
{
}

/// A canvas that still has the default focus behavior refuses focus from
/// every direction and is left as it was.
pub proof fn lemma_default_take_focus<T>(
    before: Canvas<T>,
    source: Direction,
    after: Canvas<T>,
    accepted: bool,
)
    requires
        before@.take_focus == updates(default_take_focus::<T>),
        // `take_focus(source)` led from `before` to `after` and returned `accepted`
        exists|cell: &mut T|
            #[trigger] (before@.take_focus)(source, cell, accepted) && *cell == before@.state
                && *final(cell) == after@.state,
        after@ == before@.with_state(after@.state),
    ensures
        !accepted,
        after@ == before@,
{
}

/// A canvas that still has the default relayout behavior always reports a
/// stale layout.
pub proof fn lemma_default_needs_relayout<T>(canvas: Canvas<T>, stale: bool)
    requires
        canvas@.needs_relayout == answers(default_needs_relayout::<T>),
        // `needs_relayout()` returned `stale`
        (canvas@.needs_relayout)(canvas@.state, stale),
    ensures
        stale,
{
}

/// Asked twice in a row for the same constraint, a canvas asks for the same
/// size twice, if its sizing function does so from the state the canvas is
/// in. A sizing function may read and change the state, so one that counts
/// its calls in the state and returns the count does not; the canvas adds
/// nothing of its own between the two calls.
pub proof fn lemma_required_size_repeats<T>(
    before: Canvas<T>,
    constraint: Vec2,
    between: Canvas<T>,
    first: Vec2,
    after: Canvas<T>,
    second: Vec2,
)
    requires
        // the sizing function gives the same size on a second call that
        // finds the state as the first call left it
        forall|one: &mut T, size_one: Vec2, two: &mut T, size_two: Vec2|
            #![trigger
                (before@.required_size)(constraint, one, size_one),
                (before@.required_size)(constraint, two, size_two),
            ]
            (before@.required_size)(constraint, one, size_one) && *one == before@.state
                && (before@.required_size)(constraint, two, size_two) && *two == *final(one)
                ==> size_one == size_two,
        // `required_size(constraint)` led from `before` to `between` and returned `first`
        exists|cell: &mut T|
            #[trigger] (before@.required_size)(constraint, cell, first) && *cell == before@.state
                && *final(cell) == between@.state,
        between@ == before@.with_state(between@.state),
        // the same call led from `between` to `after` and returned `second`
        exists|cell: &mut T|
            #[trigger] (between@.required_size)(constraint, cell, second) && *cell
                == between@.state && *final(cell) == after@.state,
        after@ == between@.with_state(after@.state),
    ensures
        first == second,
{
}

/// Once `f` is set for drawing, a draw is a call of `f` on the given region
/// and the state as it stands. The state is the one the canvas had: setting
/// a behavior leaves it alone, and drawing cannot reach it.
pub proof fn lemma_draw_runs_what_was_set<T, F: Fn(&Printer, &T)>(
    before: Canvas<T>,
    f: F,
    canvas: Canvas<T>,
    printer: Printer,
)
    requires
        // `before.with_draw(f)` returned `canvas`
        canvas@ == before@.with_draw(f),
        // `canvas.draw(&printer)` returned
        (canvas@.draw)(printer, canvas@.state),
    ensures
        canvas@.state == before@.state,
        call_ensures(f, (&printer, &before@.state), ()),
{
}

/// Once `f` is set for taking focus, an offer of focus is a call of `f` on
/// the state: what `f` returns is returned, and the state that `f` left is
/// the state that `state_mut` then hands out. In particular, where `f`
/// accepts focus from `source` and changes the state in a way that `change`
/// describes, focus is accepted and the state is seen to have changed so.
pub proof fn lemma_take_focus_runs_what_was_set<T, F: FnMut(Direction, &mut T) -> bool>(
    before: Canvas<T>,
    f: F,
    canvas: Canvas<T>,
    source: Direction,
    change: spec_fn(T, T) -> bool,
    after: Canvas<T>,
    accepted: bool,
    seen: T,
)
    requires
        // on `source`, `f` accepts and changes the state as `change` says
        forall|cell: &mut T, a: bool| #[trigger]
            call_ensures(f, (source, cell), a) ==> a && change(*cell, *final(cell)),
        // `before.with_take_focus(f)` returned `canvas`
        canvas@ == before@.with_take_focus(f),
        // `take_focus(source)` led from `canvas` to `after` and returned `accepted`
        exists|cell: &mut T|
            #[trigger] (canvas@.take_focus)(source, cell, accepted) && *cell == canvas@.state
                && *final(cell) == after@.state,
        after@ == canvas@.with_state(after@.state),
        // `state_mut()` on `after` returned a reference to `seen`
        seen == after@.state,
    ensures
        accepted,
        change(before@.state, seen),
        exists|cell: &mut T|
            #[trigger] call_ensures(f, (source, cell), accepted) && *cell == before@.state
                && *final(cell) == seen,
{
    let cell = choose|cell: &mut T|
        #[trigger] (canvas@.take_focus)(source, cell, accepted) && *cell == canvas@.state
            && *final(cell) == after@.state;
    assert(call_ensures(f, (source, cell), accepted));
}

/// Setters chain: after `with_draw(f1).with_layout(f2)` the canvas draws
/// with `f1`, lays out with `f2`, and has the state and the four other
/// behaviors it started with. Started from a new canvas, those four are the
/// defaults.
pub proof fn lemma_chained_setters<T, F1: Fn(&Printer, &T), F2: FnMut(Vec2, &mut T)>(
    start: Canvas<T>,
    f1: F1,
    middle: Canvas<T>,
    f2: F2,
    built: Canvas<T>,
)
    requires
        // `start.with_draw(f1)` returned `middle`
        middle@ == start@.with_draw(f1),
        // `middle.with_layout(f2)` returned `built`
        built@ == middle@.with_layout(f2),
    ensures
        built@.draw == draws(f1),
        built@.layout == updates(f2),
        built@.state == start@.state,
        built@.on_event == start@.on_event,
        built@.required_size == start@.required_size,
        built@.take_focus == start@.take_focus,
        built@.needs_relayout == start@.needs_relayout,
        start@ == CanvasView::blank(start@.state) ==> {
            &&& built@.on_event == updates(default_on_event::<T>)
            &&& built@.required_size == updates(default_required_size::<T>)
            &&& built@.take_focus == updates(default_take_focus::<T>)
            &&& built@.needs_relayout == answers(default_needs_relayout::<T>)
        },
{
}

/// Setting the function for drawing in place and setting it with the
/// chainable variant come to the same: from one canvas and one function,
/// both give a canvas with the same state and the same six behaviors, fit to
/// be driven.
pub proof fn lemma_set_draw_is_with_draw<T, F: Fn(&Printer, &T)>(
    start: Canvas<T>,
    f: F,
    in_place: Canvas<T>,
    chained: Canvas<T>,
)
    requires
        // `set_draw(f)` led from `start` to `in_place`
        in_place.well_formed(),
        in_place@ == start@.with_draw(f),
        // `start.with_draw(f)` returned `chained`
        chained.well_formed(),
        chained@ == start@.with_draw(f),
    ensures
        in_place@ == chained@,
        in_place.well_formed() == chained.well_formed(),
{
}

/// Setting the function for handling events in place and setting it with the
/// chainable variant come to the same: from one canvas and one function,
/// both give a canvas with the same state and the same six behaviors, fit to
/// be driven.
pub proof fn lemma_set_on_event_is_with_on_event<T, F: FnMut(Event, &mut T) -> EventResult>(
    start: Canvas<T>,
    f: F,
    in_place: Canvas<T>,
    chained: Canvas<T>,
)
    requires
        // `set_on_event(f)` led from `start` to `in_place`
        in_place.well_formed(),
        in_place@ == start@.with_on_event(f),
        // `start.with_on_event(f)` returned `chained`
        chained.well_formed(),
        chained@ == start@.with_on_event(f),
    ensures
        in_place@ == chained@,
        in_place.well_formed() == chained.well_formed(),
{
}

/// Setting the function for sizing in place and setting it with the
/// chainable variant come to the same: from one canvas and one function,
/// both give a canvas with the same state and the same six behaviors, fit to
/// be driven.
pub proof fn lemma_set_required_size_is_with_required_size<T, F: FnMut(Vec2, &mut T) -> Vec2>(
    start: Canvas<T>,
    f: F,
    in_place: Canvas<T>,
    chained: Canvas<T>,
)
    requires
        // `set_required_size(f)` led from `start` to `in_place`
        in_place.well_formed(),
        in_place@ == start@.with_required_size(f),
        // `start.with_required_size(f)` returned `chained`
        chained.well_formed(),
        chained@ == start@.with_required_size(f),
    ensures
        in_place@ == chained@,
        in_place.well_formed() == chained.well_formed(),
{
}

/// Setting the function for layout in place and setting it with the
/// chainable variant come to the same: from one canvas and one function,
/// both give a canvas with the same state and the same six behaviors, fit to
/// be driven.
pub proof fn lemma_set_layout_is_with_layout<T, F: FnMut(Vec2, &mut T)>(
    start: Canvas<T>,
    f: F,
    in_place: Canvas<T>,
    chained: Canvas<T>,
)
    requires
        // `set_layout(f)` led from `start` to `in_place`
        in_place.well_formed(),
        in_place@ == start@.with_layout(f),
        // `start.with_layout(f)` returned `chained`
        chained.well_formed(),
        chained@ == start@.with_layout(f),
    ensures
        in_place@ == chained@,
        in_place.well_formed() == chained.well_formed(),
{
}

/// Setting the function for taking focus in place and setting it with the
/// chainable variant come to the same: from one canvas and one function,
/// both give a canvas with the same state and the same six behaviors, fit to
/// be driven.
pub proof fn lemma_set_take_focus_is_with_take_focus<T, F: FnMut(Direction, &mut T) -> bool>(
    start: Canvas<T>,
    f: F,
    in_place: Canvas<T>,
    chained: Canvas<T>,
)
    requires
        // `set_take_focus(f)` led from `start` to `in_place`
        in_place.well_formed(),
        in_place@ == start@.with_take_focus(f),
        // `start.with_take_focus(f)` returned `chained`
        chained.well_formed(),
        chained@ == start@.with_take_focus(f),
    ensures
        in_place@ == chained@,
        in_place.well_formed() == chained.well_formed(),
{
}

/// Setting the function for the relayout question in place and setting it with the
/// chainable variant come to the same: from one canvas and one function,
/// both give a canvas with the same state and the same six behaviors, fit to
/// be driven.
pub proof fn lemma_set_needs_relayout_is_with_needs_relayout<T, F: Fn(&T) -> bool>(
    start: Canvas<T>,
    f: F,
    in_place: Canvas<T>,
    chained: Canvas<T>,
)
    requires
        // `set_needs_relayout(f)` led from `start` to `in_place`
        in_place.well_formed(),
        in_place@ == start@.with_needs_relayout(f),
        // `start.with_needs_relayout(f)` returned `chained`
        chained.well_formed(),
        chained@ == start@.with_needs_relayout(f),
    ensures
        in_place@ == chained@,
        in_place.well_formed() == chained.well_formed(),
{
}

} // verus!
