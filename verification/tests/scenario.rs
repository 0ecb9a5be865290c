use canvas_widget::{Canvas, Direction, Event, EventResult, Key, Printer, Vec2, Widget};
use std::cell::RefCell;
use std::rc::Rc;

#[test]
fn counter_canvas_counts_the_increment_event_and_ignores_the_rest() {
    let screen = Rc::new(RefCell::new(String::new()));
    let out = Rc::clone(&screen);
    let mut canvas = Canvas::new(0i64)
        .with_draw(move |_: &Printer, counter: &i64| *out.borrow_mut() = format!("{}", counter))
        .with_on_event(|event: Event, counter: &mut i64| match event {
            Event::Char('+') => {
                *counter += 1;
                EventResult::Consumed
            }
            _ => EventResult::Ignored,
        });

    let printer = Printer::new(Vec2::new(8, 1));
    canvas.draw(&printer);
    assert_eq!(screen.borrow().as_str(), "0");

    assert_eq!(canvas.on_event(Event::Char('+')), EventResult::Consumed);
    assert_eq!(canvas.on_event(Event::Char('+')), EventResult::Consumed);
    assert_eq!(canvas.on_event(Event::Char('+')), EventResult::Consumed);
    assert_eq!(*canvas.state_mut(), 3);

    assert_eq!(canvas.on_event(Event::Key(Key::Enter)), EventResult::Ignored);
    assert_eq!(*canvas.state_mut(), 3);
    assert_eq!(canvas.on_event(Event::Char('-')), EventResult::Ignored);
    assert_eq!(*canvas.state_mut(), 3);

    canvas.draw(&printer);
    assert_eq!(screen.borrow().as_str(), "3");
}

/// A widget written by hand: a label of fixed text that never takes focus
/// and says nothing of its own about relayout.
struct Label {
    text: &'static str,
    drawn: Rc<RefCell<Vec<&'static str>>>,
}

impl Widget for Label {
    fn draw(&self, _printer: &Printer) {
        self.drawn.borrow_mut().push(self.text);
    }

    fn on_event(&mut self, _event: Event) -> EventResult {
        EventResult::Ignored
    }

    fn required_size(&mut self, constraint: Vec2) -> Vec2 {
        Vec2::new(self.text.len().min(constraint.x), 1)
    }

    fn layout(&mut self, _size: Vec2) {}

    fn take_focus(&mut self, _source: Direction) -> bool {
        false
    }
}

#[test]
fn a_widget_that_does_not_say_otherwise_needs_relayout() {
    let label = Label { text: "name", drawn: Rc::new(RefCell::new(Vec::new())) };
    assert!(label.needs_relayout());
}

#[test]
fn canvases_and_other_widgets_are_driven_alike() {
    let drawn = Rc::new(RefCell::new(Vec::new()));
    let log = Rc::clone(&drawn);
    let field = Canvas::new(String::new())
        .with_draw(move |_: &Printer, _: &String| log.borrow_mut().push("field"))
        .with_on_event(|event: Event, text: &mut String| match event {
            Event::Char(c) => {
                text.push(c);
                EventResult::Consumed
            }
            _ => EventResult::Ignored,
        })
        .with_required_size(|constraint: Vec2, text: &mut String| {
            Vec2::new((text.len() + 1).min(constraint.x), 1)
        })
        .with_take_focus(|_: Direction, _: &mut String| true)
        .with_needs_relayout(|text: &String| !text.is_empty());

    let mut widgets: Vec<Box<dyn Widget>> = vec![
        Box::new(Label { text: "name", drawn: Rc::clone(&drawn) }),
        Box::new(field),
        Box::new(Canvas::new(())),
    ];

    // An event goes to the first widget that consumes it.
    let consumed_by = widgets
        .iter_mut()
        .position(|widget| widget.on_event(Event::Char('x')).is_consumed());
    assert_eq!(consumed_by, Some(1));
    let unconsumed = widgets
        .iter_mut()
        .position(|widget| widget.on_event(Event::WindowResize).is_consumed());
    assert_eq!(unconsumed, None);

    // Focus goes to the first widget that accepts it.
    let focused = widgets.iter_mut().position(|widget| widget.take_focus(Direction::Front));
    assert_eq!(focused, Some(1));

    // One frame: sizes, layout, draw.
    let constraint = Vec2::new(3, 1);
    let sizes: Vec<Vec2> =
        widgets.iter_mut().map(|widget| widget.required_size(constraint)).collect();
    assert_eq!(sizes, vec![Vec2::new(3, 1), Vec2::new(2, 1), Vec2::new(1, 1)]);
    for (widget, size) in widgets.iter_mut().zip(sizes) {
        widget.layout(size);
    }
    let stale: Vec<bool> = widgets.iter().map(|widget| widget.needs_relayout()).collect();
    assert_eq!(stale, vec![true, true, true]);
    for widget in widgets.iter() {
        widget.draw(&Printer::new(constraint));
    }
    assert_eq!(*drawn.borrow(), vec!["name", "field"]);
}
