use gpui3::geometry::{Bounds, Point, Size};
use gpui3::interactive::{
    Click, ClickArm, DispatchPhase, EventKind, InputEvent, Interactive, Interactivity, KeyDownEvent,
    Keystroke, ListenerId, Modifiers, ModifiersChangedEvent, MouseButton, MouseDownEvent, MouseExitEvent,
    MouseMoveEvent, MouseUpEvent,
    NavigationDirection, ScrollDelta, ScrollWheelEvent, TouchPhase,
};

fn bounds() -> Bounds {
    Bounds { origin: Point { x: 10, y: 20 }, size: Size { width: 100, height: 50 } }
}

fn down_at(x: i64, y: i64) -> MouseDownEvent {
    MouseDownEvent { button: MouseButton::Left, position: Point { x, y }, modifiers: Modifiers::default(), click_count: 1 }
}

fn up_at(x: i64, y: i64) -> MouseUpEvent {
    MouseUpEvent { button: MouseButton::Left, position: Point { x, y }, modifiers: Modifiers::default(), click_count: 1 }
}

fn l(v: u64) -> ListenerId {
    ListenerId { value: v }
}

#[test]
fn contains_point_includes_edges() {
    let b = bounds();
    assert!(b.contains_point(&Point { x: 10, y: 20 }));
    assert!(b.contains_point(&Point { x: 110, y: 70 }));
    assert!(b.contains_point(&Point { x: 110, y: 45 }));
    assert!(!b.contains_point(&Point { x: 111, y: 45 }));
    assert!(!b.contains_point(&Point { x: 50, y: 19 }));
}

#[test]
fn all_mouse_buttons() {
    assert_eq!(
        MouseButton::all(),
        vec![
            MouseButton::Left,
            MouseButton::Right,
            MouseButton::Middle,
            MouseButton::Navigate(NavigationDirection::Back),
            MouseButton::Navigate(NavigationDirection::Forward),
        ]
    );
    assert_eq!(MouseButton::default(), MouseButton::Left);
    assert_eq!(NavigationDirection::default(), NavigationDirection::Back);
}

#[test]
fn press_then_release_inside_clicks_once() {
    let mut pending: Option<MouseDownEvent> = None;
    let mut first = Interactivity::default().on_click(l(1)).on_click(l(2));
    let frame = first.paint(bounds(), pending);
    assert!(first.mouse_click.is_empty());
    frame.dispatch_mouse_down(&down_at(15, 25), DispatchPhase::Capture, &mut pending);
    assert!(pending.is_none());
    frame.dispatch_mouse_down(&down_at(15, 25), DispatchPhase::Bubble, &mut pending);
    assert_eq!(pending.map(|d| d.position), Some(Point { x: 15, y: 25 }));

    let mut second = Interactivity::default().on_click(l(1)).on_click(l(2));
    let mut frame = second.paint(bounds(), pending);
    assert_eq!(frame.click_listeners, vec![l(1), l(2)]);
    let (click, _) = frame.dispatch_mouse_up(&up_at(100, 60), DispatchPhase::Capture, &mut pending);
    assert!(click.is_none());
    assert!(pending.is_none());
    let (click, _) = frame.dispatch_mouse_up(&up_at(100, 60), DispatchPhase::Bubble, &mut pending);
    let click = click.unwrap();
    assert_eq!(click.down.position, Point { x: 15, y: 25 });
    assert_eq!(click.up.position, Point { x: 100, y: 60 });
    let (again, _) = frame.dispatch_mouse_up(&up_at(100, 60), DispatchPhase::Bubble, &mut pending);
    assert!(again.is_none());
    assert!(matches!(frame.click, ClickArm::Spent));
}

#[test]
fn release_outside_drops_pending_click() {
    let mut pending = Some(down_at(15, 25));
    let mut i = Interactivity::default().on_click(l(1));
    let mut frame = i.paint(bounds(), pending);
    let (click, _) = frame.dispatch_mouse_up(&up_at(500, 500), DispatchPhase::Bubble, &mut pending);
    assert!(click.is_none());
    assert!(pending.is_none());
}

#[test]
fn press_outside_is_not_recorded() {
    let mut pending: Option<MouseDownEvent> = None;
    let mut i = Interactivity::default();
    let frame = i.paint(bounds(), pending);
    frame.dispatch_mouse_down(&down_at(0, 0), DispatchPhase::Bubble, &mut pending);
    assert!(pending.is_none());
}

#[test]
fn outside_and_inside_listeners_with_edges() {
    let mut pending: Option<MouseDownEvent> = None;
    let mut i = Interactivity::default()
        .on_mouse_down(MouseButton::Left, l(1))
        .on_mouse_down_out(MouseButton::Left, l(2))
        .on_mouse_down(MouseButton::Right, l(3));
    let frame = i.paint(bounds(), Some(down_at(15, 25)));
    let on_edge = down_at(110, 70);
    assert_eq!(frame.dispatch_mouse_down(&on_edge, DispatchPhase::Bubble, &mut pending), vec![l(1)]);
    assert!(frame.dispatch_mouse_down(&on_edge, DispatchPhase::Capture, &mut pending).is_empty());
    let outside = down_at(111, 70);
    assert!(frame.dispatch_mouse_down(&outside, DispatchPhase::Bubble, &mut pending).is_empty());
    assert_eq!(frame.dispatch_mouse_down(&outside, DispatchPhase::Capture, &mut pending), vec![l(2)]);
    assert!(pending.is_none());
}

#[test]
fn mouse_up_out_listener() {
    let mut pending: Option<MouseDownEvent> = None;
    let mut i = Interactivity::default().on_mouse_up(MouseButton::Left, l(1)).on_mouse_up_out(MouseButton::Left, l(2));
    let mut frame = i.paint(bounds(), None);
    let (_, fired) = frame.dispatch_mouse_up(&up_at(10, 20), DispatchPhase::Bubble, &mut pending);
    assert_eq!(fired, vec![l(1)]);
    let (_, fired) = frame.dispatch_mouse_up(&up_at(9, 20), DispatchPhase::Capture, &mut pending);
    assert_eq!(fired, vec![l(2)]);
}

#[test]
fn paint_drains_mouse_listeners_keeps_keys() {
    let mut i = Interactivity::default()
        .on_mouse_move(l(1))
        .on_scroll_wheel(l(2))
        .on_key_down(l(3))
        .on_key_up(l(4))
        .on_action(77, l(5))
        .on_key_down(l(6));
    let frame = i.paint(bounds(), None);
    assert!(i.mouse_move.is_empty());
    assert!(i.scroll_wheel.is_empty());
    assert_eq!(i.key.len(), 4);
    let mv = MouseMoveEvent { position: Point { x: 20, y: 30 }, pressed_button: None, modifiers: Modifiers::default() };
    assert_eq!(frame.dispatch_mouse_move(&mv, DispatchPhase::Bubble), vec![l(1)]);
    assert!(frame.dispatch_mouse_move(&mv, DispatchPhase::Capture).is_empty());
    let sw = ScrollWheelEvent {
        position: Point { x: 200, y: 30 },
        delta: ScrollDelta::Pixels(Point { x: 1, y: 2 }),
        modifiers: Modifiers::default(),
        touch_phase: TouchPhase::Moved,
    };
    assert!(frame.dispatch_scroll_wheel(&sw, DispatchPhase::Bubble).is_empty());
    assert_eq!(i.key_listeners(EventKind::KeyDown), vec![l(3), l(6)]);
    assert_eq!(i.key_listeners(EventKind::Action(77)), vec![l(5)]);
    assert!(i.key_listeners(EventKind::Action(78)).is_empty());
    let again = i.paint(bounds(), None);
    assert!(again.mouse_move.is_empty());
}

#[test]
fn scroll_delta_in_pixels() {
    let lines = ScrollDelta::Lines(Point { x: 2, y: -3 });
    assert!(!lines.precise());
    assert_eq!(lines.pixel_delta(16), Point { x: 32, y: -48 });
    let px = ScrollDelta::Pixels(Point { x: 5, y: 6 });
    assert!(px.precise());
    assert_eq!(px.pixel_delta(16), Point { x: 5, y: 6 });
}

#[test]
fn input_event_position() {
    let key = InputEvent::KeyDown(KeyDownEvent {
        keystroke: Keystroke { modifiers: Modifiers::default(), key: String::from("a") },
        is_held: false,
    });
    assert_eq!(key.position(), None);
    assert!(key.mouse_event().is_none());
    assert!(key.keyboard_event().is_some());
    let down = InputEvent::MouseDown(down_at(3, 4));
    assert_eq!(down.position(), Some(Point { x: 3, y: 4 }));
    assert!(down.mouse_event().is_some());
    assert!(down.keyboard_event().is_none());
}

#[test]
fn events_read_as_their_modifiers() {
    let held = Modifiers { control: false, alt: false, shift: true, command: false, function: false };
    let changed = ModifiersChangedEvent { modifiers: held };
    assert!(changed.shift);
    assert!(!changed.control);
    let exit = MouseExitEvent { position: Point { x: 0, y: 0 }, pressed_button: None, modifiers: held };
    assert!(exit.shift);
    let sw = ScrollWheelEvent {
        position: Point { x: 0, y: 0 },
        delta: ScrollDelta::default(),
        modifiers: held,
        touch_phase: TouchPhase::Started,
    };
    assert!(sw.shift);
    assert!(!sw.delta.precise());
}
