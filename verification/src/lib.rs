//! The widget layer of a terminal user-interface toolkit.
//!
//! [`widget::Widget`] is the contract every screen element meets: it can be
//! drawn, offered input, asked for a size, laid out, offered keyboard focus
//! and asked whether its layout is stale. [`canvas::Canvas`] is a widget
//! whose six operations are supplied by the caller as functions over a piece
//! of state that the canvas owns.
//!
//! Everything here is verified. The contracts of a canvas are stated over
//! its view, [`canvas::CanvasView`]; [`behavior`] explains how a function
//! enters a view, [`defaults`] holds the functions a new canvas starts with,
//! and [`laws`] proves what the contracts add up to.

pub mod behavior;
pub mod canvas;
pub mod defaults;
pub mod direction;
pub mod event;
pub mod geometry;
pub mod laws;
pub mod printer;
pub mod widget;

pub use canvas::{Canvas, CanvasView};
pub use defaults::{
    default_draw, default_layout, default_needs_relayout, default_on_event,
    default_required_size, default_take_focus,
};
pub use direction::Direction;
pub use event::{Event, EventResult, Key};
pub use geometry::Vec2;
pub use printer::Printer;
pub use widget::Widget;
