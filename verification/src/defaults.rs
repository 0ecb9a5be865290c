//! What a canvas does until it is told otherwise.
//!
//! The six defaults are ordinary functions, so that contracts can name
//! them: a behavior that has not been replaced is `draws(default_draw)`,
//! `updates(default_on_event)` and so on.

use vstd::prelude::*;
use crate::behavior::{
    answers, call_answer, call_draw, call_update_once, draws, updates, Answer, BoxedAnswer,
    BoxedDraw, BoxedUpdate, Draw, Update,
};
use crate::direction::Direction;
use crate::event::{Event, EventResult};
use crate::geometry::Vec2;
use crate::printer::Printer;

verus! {

/// Draws nothing.
pub fn default_draw<T>(_printer: &Printer, _state: &T) {
}

/// Ignores the event and leaves the state alone.
pub fn default_on_event<T>(_event: Event, state: &mut T) -> (outcome: EventResult)
    ensures
        outcome == EventResult::Ignored,
        *final(state) == *old(state),
{
    EventResult::Ignored
}

/// Asks for one cell, the least a widget can show itself in, whatever the
/// constraint, and leaves the state alone.
pub fn default_required_size<T>(_constraint: Vec2, state: &mut T) -> (size: Vec2)
    ensures
        size == (Vec2 { x: 1, y: 1 }),
        *final(state) == *old(state),
{
    Vec2::new(1, 1)
}

/// Takes no note of the size and leaves the state alone.
pub fn default_layout<T>(_size: Vec2, state: &mut T)
    ensures
        *final(state) == *old(state),
{
}

/// Refuses focus and leaves the state alone.
pub fn default_take_focus<T>(_source: Direction, state: &mut T) -> (accepted: bool)
    ensures
        !accepted,
        *final(state) == *old(state),
{
    false
}

/// Says that the layout is stale, whatever the state.
pub fn default_needs_relayout<T>(_state: &T) -> (stale: bool)
    ensures
        stale,
{
    true
}

// A stored behavior has to be `'static`, and a function that is generic in
// `T` is so only where `T` is. Each default is therefore stored as a unit
// struct that calls it: a canvas can then be made around a state of any
// type.

struct DefaultDraw;

impl<T> Draw<T> for DefaultDraw {
    closed spec fn total(&self) -> bool {
        true
    }

    closed spec fn outcomes(&self) -> spec_fn(Printer, T) -> bool {
        draws(default_draw::<T>)
    }

    fn run(&self, printer: &Printer, state: &T) {
        call_draw(&default_draw::<T>, printer, state)
    }
}

struct DefaultOnEvent;

impl<T> Update<Event, T, EventResult> for DefaultOnEvent {
    closed spec fn total(&self) -> bool {
        true
    }

    closed spec fn outcomes<'a>(&self) -> spec_fn(Event, &'a mut T, EventResult) -> bool {
        updates(default_on_event::<T>)
    }

    fn run(&mut self, input: Event, state: &mut T) -> (output: EventResult) {
        assert(<Self as Update<Event, T, EventResult>>::outcomes(self) == updates(
            default_on_event::<T>,
        ));
        call_update_once(default_on_event::<T>, input, state)
    }
}

struct DefaultRequiredSize;

impl<T> Update<Vec2, T, Vec2> for DefaultRequiredSize {
    closed spec fn total(&self) -> bool {
        true
    }

    closed spec fn outcomes<'a>(&self) -> spec_fn(Vec2, &'a mut T, Vec2) -> bool {
        updates(default_required_size::<T>)
    }

    fn run(&mut self, input: Vec2, state: &mut T) -> (output: Vec2) {
        assert(<Self as Update<Vec2, T, Vec2>>::outcomes(self) == updates(
            default_required_size::<T>,
        ));
        call_update_once(default_required_size::<T>, input, state)
    }
}

struct DefaultLayout;

impl<T> Update<Vec2, T, ()> for DefaultLayout {
    closed spec fn total(&self) -> bool {
        true
    }

    closed spec fn outcomes<'a>(&self) -> spec_fn(Vec2, &'a mut T, ()) -> bool {
        updates(default_layout::<T>)
    }

    fn run(&mut self, input: Vec2, state: &mut T) -> (output: ()) {
        assert(<Self as Update<Vec2, T, ()>>::outcomes(self) == updates(default_layout::<T>));
        call_update_once(default_layout::<T>, input, state)
    }
}

struct DefaultTakeFocus;

impl<T> Update<Direction, T, bool> for DefaultTakeFocus {
    closed spec fn total(&self) -> bool {
        true
    }

    closed spec fn outcomes<'a>(&self) -> spec_fn(Direction, &'a mut T, bool) -> bool {
        updates(default_take_focus::<T>)
    }

    fn run(&mut self, input: Direction, state: &mut T) -> (output: bool) {
        assert(<Self as Update<Direction, T, bool>>::outcomes(self) == updates(
            default_take_focus::<T>,
        ));
        call_update_once(default_take_focus::<T>, input, state)
    }
}

struct DefaultNeedsRelayout;

impl<T> Answer<T> for DefaultNeedsRelayout {
    closed spec fn total(&self) -> bool {
        true
    }

    closed spec fn outcomes(&self) -> spec_fn(T, bool) -> bool {
        answers(default_needs_relayout::<T>)
    }

    fn run(&self, state: &T) -> (answer: bool) {
        call_answer(&default_needs_relayout::<T>, state)
    }
}

impl<T> BoxedDraw<T> {
    /// `default_draw`, boxed.
    pub(crate) fn by_default() -> (stored: Self)
        ensures
            stored.total(),
            stored.outcomes() == draws(default_draw::<T>),
    {
        BoxedDraw::new(DefaultDraw)
    }
}

impl<T> BoxedUpdate<Event, T, EventResult> {
    /// `default_on_event`, boxed.
    pub(crate) fn by_default() -> (stored: Self)
        ensures
            stored.total(),
            stored.outcomes() == updates(default_on_event::<T>),
    {
        BoxedUpdate::new(DefaultOnEvent)
    }
}

impl<T> BoxedUpdate<Vec2, T, Vec2> {
    /// `default_required_size`, boxed.
    pub(crate) fn by_default() -> (stored: Self)
        ensures
            stored.total(),
            stored.outcomes() == updates(default_required_size::<T>),
    {
        BoxedUpdate::new(DefaultRequiredSize)
    }
}

impl<T> BoxedUpdate<Vec2, T, ()> {
    /// `default_layout`, boxed.
    pub(crate) fn by_default() -> (stored: Self)
        ensures
            stored.total(),
            stored.outcomes() == updates(default_layout::<T>),
    {
        BoxedUpdate::new(DefaultLayout)
    }
}

impl<T> BoxedUpdate<Direction, T, bool> {
    /// `default_take_focus`, boxed.
    pub(crate) fn by_default() -> (stored: Self)
        ensures
            stored.total(),
            stored.outcomes() == updates(default_take_focus::<T>),
    {
        BoxedUpdate::new(DefaultTakeFocus)
    }
}

impl<T> BoxedAnswer<T> {
    /// `default_needs_relayout`, boxed.
    pub(crate) fn by_default() -> (stored: Self)
        ensures
            stored.total(),
            stored.outcomes() == answers(default_needs_relayout::<T>),
    {
        BoxedAnswer::new(DefaultNeedsRelayout)
    }
}

} // verus!
