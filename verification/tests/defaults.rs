use canvas_widget::{
    default_draw, default_layout, default_needs_relayout, default_on_event,
    default_required_size, default_take_focus, Canvas, Direction, Event, EventResult, Key,
    Printer, Vec2, Widget,
};

fn every_direction() -> Vec<Direction> {
    vec![
        Direction::Unspecified,
        Direction::Front,
        Direction::Back,
        Direction::Left,
        Direction::Right,
        Direction::Up,
        Direction::Down,
    ]
}

fn some_events() -> Vec<Event> {
    vec![
        Event::WindowResize,
        Event::Refresh,
        Event::Char('a'),
        Event::Char('+'),
        Event::Key(Key::Enter),
        Event::Key(Key::Tab),
        Event::Mouse(Vec2::new(3, 4)),
    ]
}

#[test]
fn new_canvas_ignores_every_event() {
    let mut canvas = Canvas::new(17u32);
    for event in some_events() {
        assert_eq!(canvas.on_event(event), EventResult::Ignored);
        assert_eq!(*canvas.state_mut(), 17);
    }
}

#[test]
fn new_canvas_asks_for_one_cell_whatever_the_constraint() {
    let mut canvas = Canvas::new(String::from("unchanged"));
    for constraint in [
        Vec2::new(0, 0),
        Vec2::new(1, 1),
        Vec2::new(80, 24),
        Vec2::new(0, 1000),
        Vec2::new(usize::MAX, usize::MAX),
    ] {
        assert_eq!(canvas.required_size(constraint), Vec2::new(1, 1));
    }
    assert_eq!(canvas.state_mut().as_str(), "unchanged");
}

#[test]
fn new_canvas_refuses_focus_from_every_direction() {
    let mut canvas = Canvas::new(0u8);
    for source in every_direction() {
        assert!(!canvas.take_focus(source));
    }
    assert_eq!(*canvas.state_mut(), 0);
}

#[test]
fn new_canvas_always_needs_relayout() {
    let mut canvas = Canvas::new(vec![1, 2, 3]);
    assert!(canvas.needs_relayout());
    canvas.layout(Vec2::new(10, 10));
    assert!(canvas.needs_relayout());
    canvas.state_mut().push(4);
    assert!(canvas.needs_relayout());
}

#[test]
fn new_canvas_draw_and_layout_leave_the_state() {
    let mut canvas = Canvas::new((1u8, 'x'));
    let printer = Printer::new(Vec2::new(20, 5));
    canvas.draw(&printer);
    canvas.layout(Vec2::new(20, 5));
    canvas.draw(&printer);
    canvas.layout(Vec2::new(0, 0));
    assert_eq!(*canvas.state_mut(), (1, 'x'));
}

#[test]
fn new_canvas_holds_the_state_it_was_given() {
    let mut canvas = Canvas::new(vec!["a", "b"]);
    assert_eq!(*canvas.state_mut(), vec!["a", "b"]);
    let mut unit = Canvas::new(());
    assert_eq!(*unit.state_mut(), ());
}

#[test]
fn vec2_new_keeps_both_components() {
    let v = Vec2::new(3, 7);
    assert_eq!(v.x, 3);
    assert_eq!(v.y, 7);
    assert_eq!(v, Vec2 { x: 3, y: 7 });
    assert_ne!(v, Vec2::new(7, 3));
}

#[test]
fn printer_new_is_focused_at_the_origin() {
    let printer = Printer::new(Vec2::new(80, 24));
    assert_eq!(printer.offset, Vec2::new(0, 0));
    assert_eq!(printer.size, Vec2::new(80, 24));
    assert!(printer.focused);
}

#[test]
fn is_consumed_tells_the_two_outcomes_apart() {
    assert!(EventResult::Consumed.is_consumed());
    assert!(!EventResult::Ignored.is_consumed());
}

#[test]
fn default_functions_answer_as_a_new_canvas_does() {
    let mut state = vec![1u8, 2, 3];
    let printer = Printer::new(Vec2::new(9, 9));
    default_draw(&printer, &state);
    assert_eq!(default_on_event(Event::Char('x'), &mut state), EventResult::Ignored);
    assert_eq!(default_on_event(Event::Key(Key::Enter), &mut state), EventResult::Ignored);
    assert_eq!(default_required_size(Vec2::new(0, 0), &mut state), Vec2::new(1, 1));
    assert_eq!(default_required_size(Vec2::new(640, 480), &mut state), Vec2::new(1, 1));
    default_layout(Vec2::new(5, 5), &mut state);
    for source in every_direction() {
        assert!(!default_take_focus(source, &mut state));
    }
    assert!(default_needs_relayout(&state));
    assert_eq!(state, vec![1, 2, 3]);
}

#[test]
fn a_default_can_be_put_back() {
    let mut canvas = Canvas::new(0u32).with_on_event(|_: Event, hits: &mut u32| {
        *hits += 1;
        EventResult::Consumed
    });
    assert_eq!(canvas.on_event(Event::Refresh), EventResult::Consumed);
    canvas.set_on_event(default_on_event::<u32>);
    assert_eq!(canvas.on_event(Event::Refresh), EventResult::Ignored);
    assert_eq!(*canvas.state_mut(), 1);
}
