use ratatui_reactive::backend::{on_key, on_key_press, on_mouse, on_resize};
use ratatui_reactive::event::{
    Event, KeyCode, KeyEvent, KeyEventKind, MouseButton, MouseEvent, MouseEventKind,
};

fn key(code: KeyCode, kind: KeyEventKind) -> KeyEvent {
    KeyEvent { code, modifiers: 0, kind, state: 0 }
}

fn mouse() -> MouseEvent {
    MouseEvent { kind: MouseEventKind::Down(MouseButton::Left), column: 3, row: 4, modifiers: 2 }
}

#[test]
fn key_event_new_is_press() {
    let k = KeyEvent::new(KeyCode::Char('q'), 1);
    assert_eq!(k.code, KeyCode::Char('q'));
    assert_eq!(k.modifiers, 1);
    assert_eq!(k.kind, KeyEventKind::Press);
    assert_eq!(k.state, 0);
}

#[test]
fn key_press_reaches_key_and_key_press_listeners() {
    let k = key(KeyCode::Enter, KeyEventKind::Press);
    let e = Event::Key(k);
    assert_eq!(on_key(&e), Some(k));
    assert_eq!(on_key_press(&e), Some(k));
    assert_eq!(on_mouse(&e), None);
    assert_eq!(on_resize(&e), None);
}

#[test]
fn key_release_and_repeat_skip_key_press_listener() {
    for kind in [KeyEventKind::Release, KeyEventKind::Repeat] {
        let k = key(KeyCode::Char('x'), kind);
        let e = Event::Key(k);
        assert_eq!(on_key(&e), Some(k));
        assert_eq!(on_key_press(&e), None);
    }
}

#[test]
fn mouse_event_reaches_mouse_listener_only() {
    let m = mouse();
    let e = Event::Mouse(m);
    assert_eq!(on_mouse(&e), Some(m));
    assert_eq!(on_key(&e), None);
    assert_eq!(on_key_press(&e), None);
    assert_eq!(on_resize(&e), None);
}

#[test]
fn resize_event_reaches_resize_listener_only() {
    let e = Event::Resize(80, 24);
    assert_eq!(on_resize(&e), Some((80, 24)));
    assert_eq!(on_key(&e), None);
    assert_eq!(on_mouse(&e), None);
}

#[test]
fn other_events_reach_no_filtered_listener() {
    for e in [Event::FocusGained, Event::FocusLost, Event::Paste(String::from("hi"))] {
        assert_eq!(on_key(&e), None);
        assert_eq!(on_key_press(&e), None);
        assert_eq!(on_mouse(&e), None);
        assert_eq!(on_resize(&e), None);
    }
}

#[test]
fn event_accessors() {
    let k = key(KeyCode::F(5), KeyEventKind::Press);
    assert_eq!(Event::Key(k).as_key_event(), Some(k));
    assert_eq!(Event::Key(k).as_key_press_event(), Some(k));
    assert_eq!(Event::Mouse(mouse()).as_mouse_event(), Some(mouse()));
    assert_eq!(Event::Resize(1, 2).as_resize_event(), Some((1, 2)));
    assert_eq!(Event::FocusLost.as_resize_event(), None);
}

#[test]
fn key_press_listener_over_a_stream_of_events() {
    let press = key(KeyCode::Char('a'), KeyEventKind::Press);
    let release = key(KeyCode::Char('a'), KeyEventKind::Release);
    let events = vec![
        Event::Key(press),
        Event::Resize(10, 10),
        Event::Key(release),
        Event::Mouse(mouse()),
        Event::Key(press),
    ];
    let keys: Vec<KeyEvent> = events.iter().filter_map(on_key).collect();
    let presses: Vec<KeyEvent> = events.iter().filter_map(on_key_press).collect();
    let mice: Vec<MouseEvent> = events.iter().filter_map(on_mouse).collect();
    let sizes: Vec<(u16, u16)> = events.iter().filter_map(on_resize).collect();
    assert_eq!(keys, vec![press, release, press]);
    assert_eq!(presses, vec![press, press]);
    assert_eq!(mice, vec![mouse()]);
    assert_eq!(sizes, vec![(10, 10)]);
}
