//! A widget made of functions.

use vstd::prelude::*;
use crate::behavior::{
    answers, draws, total_answer, total_draw, total_update, updates, BoxedAnswer, BoxedDraw,
    BoxedUpdate,
};
use crate::defaults::{
    default_draw, default_layout, default_needs_relayout, default_on_event,
    default_required_size, default_take_focus,
};
use crate::direction::Direction;
use crate::event::{Event, EventResult};
use crate::geometry::Vec2;
use crate::printer::Printer;
use crate::widget::Widget;

verus! {

/// What a canvas is, to whoever drives it: the state it owns, and for each
/// of its six behaviors the outcomes that the stored function allows (see
/// the `behavior` module for the shape of these relations).
///
/// The contract of every operation of a canvas is stated over its view, so
/// two canvases with the same view cannot be told apart by driving them.
///
/// The lifetime is that of the references in the four relations that take
/// one, and says nothing of the canvas.
#[verifier::reject_recursive_types(T)]
pub struct CanvasView<'a, T> {
    pub state: T,
    pub draw: spec_fn(Printer, T) -> bool,
    pub on_event: spec_fn(Event, &'a mut T, EventResult) -> bool,
    pub required_size: spec_fn(Vec2, &'a mut T, Vec2) -> bool,
    pub layout: spec_fn(Vec2, &'a mut T, ()) -> bool,
    pub take_focus: spec_fn(Direction, &'a mut T, bool) -> bool,
    pub needs_relayout: spec_fn(T, bool) -> bool,
}

impl<'a, T> CanvasView<'a, T> {
    /// The view of a canvas around `state` that has the default for each of
    /// its behaviors.
    pub open spec fn blank(state: T) -> Self {
        CanvasView {
            state,
            draw: draws(default_draw::<T>),
            on_event: updates(default_on_event::<T>),
            required_size: updates(default_required_size::<T>),
            layout: updates(default_layout::<T>),
            take_focus: updates(default_take_focus::<T>),
            needs_relayout: answers(default_needs_relayout::<T>),
        }
    }

    /// This view with another state and the same behaviors.
    pub open spec fn with_state(self, state: T) -> Self {
        CanvasView { state, ..self }
    }

    /// This view with `f` for drawing and all else the same.
    pub open spec fn with_draw<F: Fn(&Printer, &T)>(self, f: F) -> Self {
        CanvasView { draw: draws(f), ..self }
    }

    /// This view with `f` for handling events and all else the same.
    pub open spec fn with_on_event<F: FnMut(Event, &mut T) -> EventResult>(self, f: F) -> Self {
        CanvasView { on_event: updates(f), ..self }
    }

    /// This view with `f` for sizing and all else the same.
    pub open spec fn with_required_size<F: FnMut(Vec2, &mut T) -> Vec2>(self, f: F) -> Self {
        CanvasView { required_size: updates(f), ..self }
    }

    /// This view with `f` for layout and all else the same.
    pub open spec fn with_layout<F: FnMut(Vec2, &mut T)>(self, f: F) -> Self {
        CanvasView { layout: updates(f), ..self }
    }

    /// This view with `f` for taking focus and all else the same.
    pub open spec fn with_take_focus<F: FnMut(Direction, &mut T) -> bool>(self, f: F) -> Self {
        CanvasView { take_focus: updates(f), ..self }
    }

    /// This view with `f` for the relayout question and all else the same.
    pub open spec fn with_needs_relayout<F: Fn(&T) -> bool>(self, f: F) -> Self {
        CanvasView { needs_relayout: answers(f), ..self }
    }
}

/// A blank widget that forwards each operation to a function of the
/// caller's, together with a piece of state that the canvas owns. Drawing
/// and the relayout question read the state; the other four behaviors may
/// change it.
///
/// A new canvas has a default for every behavior, and each can be replaced
/// at any time without touching the others. Every function that is set has
/// to be total: no operation of a widget may fail, so a behavior owes an
/// answer on every input and in every state that the caller may have
/// written.
#[verifier::reject_recursive_types(T)]
pub struct Canvas<T> {
    state: T,
    draw: BoxedDraw<T>,
    on_event: BoxedUpdate<Event, T, EventResult>,
    required_size: BoxedUpdate<Vec2, T, Vec2>,
    layout: BoxedUpdate<Vec2, T, ()>,
    take_focus: BoxedUpdate<Direction, T, bool>,
    needs_relayout: BoxedAnswer<T>,
}

impl<T> Canvas<T> {
    /// The state, and the outcomes of each stored behavior.
    pub closed spec fn view<'a>(&self) -> CanvasView<'a, T> {
        CanvasView {
            state: self.state,
            draw: self.draw.outcomes(),
            on_event: self.on_event.outcomes(),
            required_size: self.required_size.outcomes(),
            layout: self.layout.outcomes(),
            take_focus: self.take_focus.outcomes(),
            needs_relayout: self.needs_relayout.outcomes(),
        }
    }

    /// Creates a canvas around `state` with the default behaviors: drawing
    /// and layout do nothing, events are ignored, the size asked for is one
    /// cell, focus is refused, and the layout always counts as stale.
    pub fn new(state: T) -> (canvas: Self)
        ensures
            canvas.well_formed(),
            canvas@ == CanvasView::blank(state),
    {
        Canvas {
            state,
            draw: BoxedDraw::by_default(),
            on_event: BoxedUpdate::<Event, T, EventResult>::by_default(),
            required_size: BoxedUpdate::<Vec2, T, Vec2>::by_default(),
            layout: BoxedUpdate::<Vec2, T, ()>::by_default(),
            take_focus: BoxedUpdate::<Direction, T, bool>::by_default(),
            needs_relayout: BoxedAnswer::by_default(),
        }
    }

    /// Gets a mutable reference to the inner state. The behaviors stay as
    /// they are, whatever is written through it.
    pub fn state_mut(&mut self) -> (state: &mut T)
        ensures
            *state == old(self)@.state,
            final(self)@ == old(self)@.with_state(*final(state)),
            final(self).well_formed() == old(self).well_formed(),
    {
        &mut self.state
    }

    /// Sets the function for `draw`.
    pub fn set_draw<F>(&mut self, f: F) where F: 'static + Fn(&Printer, &T)
        requires
            old(self).well_formed(),
            total_draw(f),
        ensures
            final(self).well_formed(),
            final(self)@ == old(self)@.with_draw(f),
    {
        self.draw = BoxedDraw::new(f);
    }

    /// Sets the function for `draw`.
    ///
    /// Chainable variant.
    pub fn with_draw<F>(self, f: F) -> (canvas: Self) where F: 'static + Fn(&Printer, &T)
        requires
            self.well_formed(),
            total_draw(f),
        ensures
            canvas.well_formed(),
            canvas@ == self@.with_draw(f),
    {
        let mut canvas = self;
        canvas.set_draw(f);
        canvas
    }

    /// Sets the function for `on_event`.
    pub fn set_on_event<F>(&mut self, f: F) where F: 'static + FnMut(Event, &mut T) -> EventResult
        requires
            old(self).well_formed(),
            total_update(f),
        ensures
            final(self).well_formed(),
            final(self)@ == old(self)@.with_on_event(f),
    {
        self.on_event = BoxedUpdate::new(f);
    }

    /// Sets the function for `on_event`.
    ///
    /// Chainable variant.
    pub fn with_on_event<F>(self, f: F) -> (canvas: Self) where
        F: 'static + FnMut(Event, &mut T) -> EventResult,

        requires
            self.well_formed(),
            total_update(f),
        ensures
            canvas.well_formed(),
            canvas@ == self@.with_on_event(f),
    {
        let mut canvas = self;
        canvas.set_on_event(f);
        canvas
    }

    /// Sets the function for `required_size`.
    pub fn set_required_size<F>(&mut self, f: F) where F: 'static + FnMut(Vec2, &mut T) -> Vec2
        requires
            old(self).well_formed(),
            total_update(f),
        ensures
            final(self).well_formed(),
            final(self)@ == old(self)@.with_required_size(f),
    {
        self.required_size = BoxedUpdate::new(f);
    }

    /// Sets the function for `required_size`.
    ///
    /// Chainable variant.
    pub fn with_required_size<F>(self, f: F) -> (canvas: Self) where
        F: 'static + FnMut(Vec2, &mut T) -> Vec2,

        requires
            self.well_formed(),
            total_update(f),
        ensures
            canvas.well_formed(),
            canvas@ == self@.with_required_size(f),
    {
        let mut canvas = self;
        canvas.set_required_size(f);
        canvas
    }

    /// Sets the function for `layout`.
    pub fn set_layout<F>(&mut self, f: F) where F: 'static + FnMut(Vec2, &mut T)
        requires
            old(self).well_formed(),
            total_update(f),
        ensures
            final(self).well_formed(),
            final(self)@ == old(self)@.with_layout(f),
    {
        self.layout = BoxedUpdate::new(f);
    }

    /// Sets the function for `layout`.
    ///
    /// Chainable variant.
    pub fn with_layout<F>(self, f: F) -> (canvas: Self) where F: 'static + FnMut(Vec2, &mut T)
        requires
            self.well_formed(),
            total_update(f),
        ensures
            canvas.well_formed(),
            canvas@ == self@.with_layout(f),
    {
        let mut canvas = self;
        canvas.set_layout(f);
        canvas
    }

    /// Sets the function for `take_focus`.
    pub fn set_take_focus<F>(&mut self, f: F) where F: 'static + FnMut(Direction, &mut T) -> bool
        requires
            old(self).well_formed(),
            total_update(f),
        ensures
            final(self).well_formed(),
            final(self)@ == old(self)@.with_take_focus(f),
    {
        self.take_focus = BoxedUpdate::new(f);
    }

    /// Sets the function for `take_focus`.
    ///
    /// Chainable variant.
    pub fn with_take_focus<F>(self, f: F) -> (canvas: Self) where
        F: 'static + FnMut(Direction, &mut T) -> bool,

        requires
            self.well_formed(),
            total_update(f),
        ensures
            canvas.well_formed(),
            canvas@ == self@.with_take_focus(f),
    {
        let mut canvas = self;
        canvas.set_take_focus(f);
        canvas
    }

    /// Sets the function for `needs_relayout`.
    pub fn set_needs_relayout<F>(&mut self, f: F) where F: 'static + Fn(&T) -> bool
        requires
            old(self).well_formed(),
            total_answer(f),
        ensures
            final(self).well_formed(),
            final(self)@ == old(self)@.with_needs_relayout(f),
    {
        self.needs_relayout = BoxedAnswer::new(f);
    }

    /// Sets the function for `needs_relayout`.
    ///
    /// Chainable variant.
    pub fn with_needs_relayout<F>(self, f: F) -> (canvas: Self) where F: 'static + Fn(&T) -> bool
        requires
            self.well_formed(),
            total_answer(f),
        ensures
            canvas.well_formed(),
            canvas@ == self@.with_needs_relayout(f),
    {
        let mut canvas = self;
        canvas.set_needs_relayout(f);
        canvas
    }
}

impl<T> Widget for Canvas<T> {
    /// Every stored behavior is total. This is what lets the operations run
    /// without conditions of their own.
    closed spec fn well_formed(&self) -> bool {
        &&& self.draw.total()
        &&& self.on_event.total()
        &&& self.required_size.total()
        &&& self.layout.total()
        &&& self.take_focus.total()
        &&& self.needs_relayout.total()
    }

    /// Calls the drawing function on the region and the state.
    fn draw(&self, printer: &Printer)
        ensures
            (self@.draw)(*printer, self@.state),
    {
        self.draw.run(printer, &self.state);
    }

    /// Calls the event function on the event and the state, and returns
    /// what it returns.
    fn on_event(&mut self, event: Event) -> (outcome: EventResult)
        ensures
            exists|cell: &mut T|
                #[trigger] (old(self)@.on_event)(event, cell, outcome)
                    && *cell == old(self)@.state && *final(cell) == final(self)@.state,
            final(self)@ == old(self)@.with_state(final(self)@.state),
    {
        assert(self@.on_event == self.on_event.outcomes());
        self.on_event.run(event, &mut self.state)
    }

    /// Calls the sizing function on the constraint and the state, and
    /// returns what it returns.
    fn required_size(&mut self, constraint: Vec2) -> (size: Vec2)
        ensures
            exists|cell: &mut T|
                #[trigger] (old(self)@.required_size)(constraint, cell, size)
                    && *cell == old(self)@.state && *final(cell) == final(self)@.state,
            final(self)@ == old(self)@.with_state(final(self)@.state),
    {
        assert(self@.required_size == self.required_size.outcomes());
        self.required_size.run(constraint, &mut self.state)
    }

    /// Calls the layout function on the size and the state.
    fn layout(&mut self, size: Vec2)
        ensures
            exists|cell: &mut T|
                #[trigger] (old(self)@.layout)(size, cell, ())
                    && *cell == old(self)@.state && *final(cell) == final(self)@.state,
            final(self)@ == old(self)@.with_state(final(self)@.state),
    {
        assert(self@.layout == self.layout.outcomes());
        self.layout.run(size, &mut self.state);
    }

    /// Calls the focus function on the direction and the state, and returns
    /// what it returns.
    fn take_focus(&mut self, source: Direction) -> (accepted: bool)
        ensures
            exists|cell: &mut T|
                #[trigger] (old(self)@.take_focus)(source, cell, accepted)
                    && *cell == old(self)@.state && *final(cell) == final(self)@.state,
            final(self)@ == old(self)@.with_state(final(self)@.state),
    {
        assert(self@.take_focus == self.take_focus.outcomes());
        self.take_focus.run(source, &mut self.state)
    }

    /// Calls the relayout function on the state, and returns what it
    /// returns.
    fn needs_relayout(&self) -> (stale: bool)
        ensures
            (self@.needs_relayout)(self@.state, stale),
    {
        self.needs_relayout.run(&self.state)
    }
}

} // verus!
