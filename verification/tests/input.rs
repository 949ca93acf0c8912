use ortelius::input::{Action, Event, Input};

type Position = (f64, f64);

fn step(input: &mut Input<Position>, event: Event<Position, f64>) -> Action<Position, f64> {
    input.handle(event)
}

fn moved(x: f64, y: f64) -> Event<Position, f64> {
    Event::CursorMoved { position: (x, y) }
}

#[test]
fn fresh_tracker_knows_no_position() {
    let input = Input::<Position>::new();
    assert_eq!(input.is_mouse_down, None);
    assert_eq!(input.prior_position, None);
}

#[test]
fn close_and_escape_exit() {
    let mut input = Input::<Position>::new();
    assert!(matches!(step(&mut input, Event::CloseRequested), Action::Exit));
    assert!(matches!(step(&mut input, Event::EscapePressed), Action::Exit));
    assert_eq!(input.is_mouse_down, None);
    assert_eq!(input.prior_position, None);
}

#[test]
fn resize_and_redraw_pass_through() {
    let mut input = Input::<Position>::new();
    let action = step(&mut input, Event::Resized { width: 640, height: 480 });
    assert!(matches!(action, Action::Resize { width: 640, height: 480 }));
    assert!(action.needs_redraw());
    let action = step(&mut input, Event::RedrawRequested);
    assert!(matches!(action, Action::Render));
    assert!(!action.needs_redraw());
    let action = step(&mut input, Event::Other);
    assert!(matches!(action, Action::Ignore));
    assert!(!action.needs_redraw());
}

#[test]
fn moves_record_the_position() {
    let mut input = Input::<Position>::new();
    let action = step(&mut input, moved(3.0, 4.0));
    assert!(matches!(action, Action::Ignore));
    assert_eq!(input.prior_position, Some((3.0, 4.0)));
    step(&mut input, moved(5.0, 6.0));
    assert_eq!(input.prior_position, Some((5.0, 6.0)));
    step(&mut input, Event::CursorLeft);
    assert_eq!(input.prior_position, None);
}

#[test]
fn wheel_zooms_around_the_last_position() {
    let mut input = Input::<Position>::new();
    let action = step(&mut input, Event::MouseWheel { factor: 1.1 });
    assert!(matches!(action, Action::Ignore));
    step(&mut input, moved(10.0, 20.0));
    let action = step(&mut input, Event::MouseWheel { factor: 1.1 });
    match action {
        Action::Zoom { anchor, factor } => {
            assert_eq!(anchor, (10.0, 20.0));
            assert_eq!(factor, 1.1);
        }
        _ => panic!("the wheel was turned over the window"),
    }
    assert!(action.needs_redraw());
    assert_eq!(input.prior_position, Some((10.0, 20.0)));
    step(&mut input, Event::CursorLeft);
    let action = step(&mut input, Event::MouseWheel { factor: 0.9 });
    assert!(matches!(action, Action::Ignore));
}

#[test]
fn press_without_position_starts_no_drag() {
    let mut input = Input::<Position>::new();
    step(&mut input, Event::LeftButton { pressed: true });
    assert_eq!(input.is_mouse_down, None);
    let action = step(&mut input, moved(1.0, 1.0));
    assert!(matches!(action, Action::Ignore));
}

#[test]
fn drag_runs_from_press_to_release() {
    let mut input = Input::<Position>::new();
    step(&mut input, moved(1.0, 2.0));
    let action = step(&mut input, Event::LeftButton { pressed: true });
    assert!(matches!(action, Action::Ignore));
    assert_eq!(input.is_mouse_down, Some((1.0, 2.0)));

    let action = step(&mut input, moved(3.0, 4.0));
    match action {
        Action::Drag { start, prior, current } => {
            assert_eq!(start, (1.0, 2.0));
            assert_eq!(prior, (1.0, 2.0));
            assert_eq!(current, (3.0, 4.0));
        }
        _ => panic!("the button is down"),
    }
    assert!(action.needs_redraw());

    let action = step(&mut input, moved(6.0, 5.0));
    match action {
        Action::Drag { start, prior, current } => {
            assert_eq!(start, (1.0, 2.0));
            assert_eq!(prior, (3.0, 4.0));
            assert_eq!(current, (6.0, 5.0));
        }
        _ => panic!("the button is still down"),
    }

    step(&mut input, Event::LeftButton { pressed: false });
    assert_eq!(input.is_mouse_down, None);
    assert_eq!(input.prior_position, Some((6.0, 5.0)));
    let action = step(&mut input, moved(7.0, 7.0));
    assert!(matches!(action, Action::Ignore));
}

#[test]
fn leaving_the_window_pauses_a_drag() {
    let mut input = Input::<Position>::new();
    step(&mut input, moved(1.0, 2.0));
    step(&mut input, Event::LeftButton { pressed: true });
    step(&mut input, Event::CursorLeft);
    assert_eq!(input.is_mouse_down, Some((1.0, 2.0)));
    let action = step(&mut input, moved(8.0, 9.0));
    assert!(matches!(action, Action::Ignore));
    let action = step(&mut input, moved(9.0, 9.0));
    match action {
        Action::Drag { start, prior, current } => {
            assert_eq!(start, (1.0, 2.0));
            assert_eq!(prior, (8.0, 9.0));
            assert_eq!(current, (9.0, 9.0));
        }
        _ => panic!("the drag goes on"),
    }
}
