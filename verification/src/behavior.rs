//! The three shapes of function that a canvas stores, and what can be said
//! of a stored function.
//!
//! A behavior is any callable value: a closure or a named function. Two
//! things can be said of one: on which arguments it may be called, and which
//! results it may give. The second is a relation rather than a function,
//! because two calls of one closure on equal arguments need not agree. The
//! spec functions here name both, for each shape.
//!
//! A function that may change the state takes it as `&mut T`. In a relation
//! such a reference is called `cell` and stands for the state over the whole
//! call: `*cell` is the state that the function found, `*final(cell)` the
//! state that it left.

use vstd::prelude::*;
use crate::printer::Printer;

verus! {

/// The outcomes of a drawing function: `draws(f)(printer, state)` holds when
/// a call of `f` on that region and that state may return.
pub open spec fn draws<T, F: Fn(&Printer, &T)>(f: F) -> spec_fn(Printer, T) -> bool {
    |printer: Printer, state: T| call_ensures(f, (&printer, &state), ())
}

/// Whether a drawing function is total: it may be called on every region
/// and every state.
pub open spec fn total_draw<T, F: Fn(&Printer, &T)>(f: F) -> bool {
    forall|printer: Printer, state: T| call_requires(f, (&printer, &state))
}

/// The outcomes of a function that takes an input and may change the state:
/// `updates(f)(input, cell, output)` holds when a call of `f` on `input` and
/// on the state behind `cell` may return `output`.
pub open spec fn updates<'a, A, T, R, F: FnMut(A, &mut T) -> R>(f: F) -> spec_fn(
    A,
    &'a mut T,
    R,
) -> bool {
    |input: A, cell: &mut T, output: R| call_ensures(f, (input, cell), output)
}

/// Whether a state-changing function is total: it may be called on every
/// input and every state.
pub open spec fn total_update<A, T, R, F: FnMut(A, &mut T) -> R>(f: F) -> bool {
    forall|input: A, cell: &mut T| call_requires(f, (input, cell))
}

/// The outcomes of a function that answers a question about the state:
/// `answers(f)(state, answer)` holds when a call of `f` on `state` may
/// return `answer`.
pub open spec fn answers<T, F: Fn(&T) -> bool>(f: F) -> spec_fn(T, bool) -> bool {
    |state: T, answer: bool| call_ensures(f, (&state,), answer)
}

/// Whether a question is total: it may be asked of every state.
pub open spec fn total_answer<T, F: Fn(&T) -> bool>(f: F) -> bool {
    forall|state: T| call_requires(f, (&state,))
}

/// Calls a drawing function.
pub(crate) fn call_draw<T, F: Fn(&Printer, &T)>(f: &F, printer: &Printer, state: &T)
    requires
        total_draw(*f),
    ensures
        (draws(*f))(*printer, *state),
{
    f(printer, state)
}

/// Calls a state-changing function on the state in place. The function
/// itself is the same afterwards.
pub(crate) fn call_update<A, T, R, F: FnMut(A, &mut T) -> R>(
    f: &mut F,
    input: A,
    state: &mut T,
) -> (output: R)
    requires
        total_update(*old(f)),
    ensures
        exists|cell: &mut T|
            #[trigger] (updates(*old(f)))(input, cell, output) && *cell == *old(state)
                && *final(cell) == *final(state),
        *final(f) == *old(f),
{
    let output = f(input, state);
    proof {
        let cell = choose|cell: &mut T|
            call_ensures(*old(f), (input, cell), output) && *cell == *old(state)
                && *final(cell) == *state;
        assert((updates(*old(f)))(input, cell, output));
    }
    output
}

/// Calls a state-changing function that the caller hands over.
pub(crate) fn call_update_once<A, T, R, F: FnMut(A, &mut T) -> R>(
    f: F,
    input: A,
    state: &mut T,
) -> (output: R)
    requires
        total_update(f),
    ensures
        exists|cell: &mut T|
            #[trigger] (updates(f))(input, cell, output) && *cell == *old(state) && *final(cell)
                == *final(state),
{
    let mut f = f;
    call_update(&mut f, input, state)
}

/// Asks a question of the state.
pub(crate) fn call_answer<T, F: Fn(&T) -> bool>(f: &F, state: &T) -> (answer: bool)
    requires
        total_answer(*f),
    ensures
        (answers(*f))(*state, answer),
{
    f(state)
}

/// What can be stored for drawing: any function of that shape, whose
/// `outcomes` are `draws` of it and which is `total` when `total_draw` holds
/// of it, and the stored form of the default.
pub(crate) trait Draw<T> {
    spec fn total(&self) -> bool;

    spec fn outcomes(&self) -> spec_fn(Printer, T) -> bool;

    fn run(&self, printer: &Printer, state: &T)
        requires
            self.total(),
        ensures
            (self.outcomes())(*printer, *state),
    ;
}

impl<T, F: Fn(&Printer, &T)> Draw<T> for F {
    open spec fn total(&self) -> bool {
        total_draw(*self)
    }

    open spec fn outcomes(&self) -> spec_fn(Printer, T) -> bool {
        draws(*self)
    }

    fn run(&self, printer: &Printer, state: &T) {
        call_draw(self, printer, state)
    }
}

/// What can be stored for an operation that may change the state: any
/// function of that shape, whose `outcomes` are `updates` of it and which is
/// `total` when `total_update` holds of it, and the stored forms of the
/// defaults.
pub(crate) trait Update<A, T, R> {
    spec fn total(&self) -> bool;

    spec fn outcomes<'a>(&self) -> spec_fn(A, &'a mut T, R) -> bool;

    fn run(&mut self, input: A, state: &mut T) -> (output: R)
        requires
            (*old(self)).total(),
        ensures
            exists|cell: &mut T|
                #[trigger] ((*old(self)).outcomes())(input, cell, output) && *cell == *old(state)
                    && *final(cell) == *final(state),
            (*final(self)).total(),
            (*final(self)).outcomes() == (*old(self)).outcomes(),
    ;
}

impl<A, T, R, F: FnMut(A, &mut T) -> R> Update<A, T, R> for F {
    open spec fn total(&self) -> bool {
        total_update(*self)
    }

    open spec fn outcomes<'a>(&self) -> spec_fn(A, &'a mut T, R) -> bool {
        updates(*self)
    }

    fn run(&mut self, input: A, state: &mut T) -> (output: R) {
        assert((*self).outcomes() == updates(*self));
        call_update(self, input, state)
    }
}

/// What can be stored for a question about the state: any function of that
/// shape, whose `outcomes` are `answers` of it and which is `total` when
/// `total_answer` holds of it, and the stored form of the default.
pub(crate) trait Answer<T> {
    spec fn total(&self) -> bool;

    spec fn outcomes(&self) -> spec_fn(T, bool) -> bool;

    fn run(&self, state: &T) -> (answer: bool)
        requires
            self.total(),
        ensures
            (self.outcomes())(*state, answer),
    ;
}

impl<T, F: Fn(&T) -> bool> Answer<T> for F {
    open spec fn total(&self) -> bool {
        total_answer(*self)
    }

    open spec fn outcomes(&self) -> spec_fn(T, bool) -> bool {
        answers(*self)
    }

    fn run(&self, state: &T) -> (answer: bool) {
        call_answer(self, state)
    }
}

/// A drawing behavior of some type, boxed.
#[verifier::reject_recursive_types(T)]
pub(crate) struct BoxedDraw<T> {
    f: Box<dyn Draw<T>>,
}

impl<T> BoxedDraw<T> {
    pub(crate) closed spec fn total(&self) -> bool {
        self.f.total()
    }

    pub(crate) closed spec fn outcomes(&self) -> spec_fn(Printer, T) -> bool {
        self.f.outcomes()
    }

    pub(crate) fn new<D>(d: D) -> (stored: Self) where D: 'static + Draw<T>
        ensures
            stored.total() == d.total(),
            stored.outcomes() == d.outcomes(),
    {
        BoxedDraw { f: Box::new(d) }
    }

    pub(crate) fn run(&self, printer: &Printer, state: &T)
        requires
            self.total(),
        ensures
            (self.outcomes())(*printer, *state),
    {
        self.f.run(printer, state)
    }
}

/// A state-changing behavior of some type, boxed.
#[verifier::reject_recursive_types(A)]
#[verifier::reject_recursive_types(T)]
#[verifier::reject_recursive_types(R)]
pub(crate) struct BoxedUpdate<A, T, R> {
    f: Box<dyn Update<A, T, R>>,
}

impl<A, T, R> BoxedUpdate<A, T, R> {
    pub(crate) closed spec fn total(&self) -> bool {
        self.f.total()
    }

    pub(crate) closed spec fn outcomes<'a>(&self) -> spec_fn(A, &'a mut T, R) -> bool {
        self.f.outcomes()
    }

    pub(crate) fn new<U>(u: U) -> (stored: Self) where U: 'static + Update<A, T, R>
        ensures
            stored.total() == u.total(),
            stored.outcomes() == u.outcomes(),
    {
        BoxedUpdate { f: Box::new(u) }
    }

    /// Runs the function on the state in place. The function itself is the
    /// same afterwards: a later run is described by the same relation.
    pub(crate) fn run(&mut self, input: A, state: &mut T) -> (output: R)
        requires
            old(self).total(),
        ensures
            exists|cell: &mut T|
                #[trigger] (old(self).outcomes())(input, cell, output) && *cell == *old(state)
                    && *final(cell) == *final(state),
            final(self).total(),
            final(self).outcomes() == old(self).outcomes(),
    {
        assert(self.outcomes() == self.f.outcomes());
        self.f.run(input, state)
    }
}

/// A question about the state, of some type, boxed.
#[verifier::reject_recursive_types(T)]
pub(crate) struct BoxedAnswer<T> {
    f: Box<dyn Answer<T>>,
}

impl<T> BoxedAnswer<T> {
    pub(crate) closed spec fn total(&self) -> bool {
        self.f.total()
    }

    pub(crate) closed spec fn outcomes(&self) -> spec_fn(T, bool) -> bool {
        self.f.outcomes()
    }

    pub(crate) fn new<Q>(q: Q) -> (stored: Self) where Q: 'static + Answer<T>
        ensures
            stored.total() == q.total(),
            stored.outcomes() == q.outcomes(),
    {
        BoxedAnswer { f: Box::new(q) }
    }

    pub(crate) fn run(&self, state: &T) -> (answer: bool)
        requires
            self.total(),
        ensures
            (self.outcomes())(*state, answer),
    {
        self.f.run(state)
    }
}

} // verus!
