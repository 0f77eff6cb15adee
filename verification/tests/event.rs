use tui_react::event::{
    Event, KeyCode, KeyEvent, KeyEventKind, KeyEventState, KeyModifiers, MouseButton, MouseEvent,
    MouseEventKind, ALT, CONTROL, HYPER, META, SHIFT, SUPER,
};
use tui_react::executor::Executor;

fn key(code: KeyCode, bits: u8) -> Event {
    Event::Key(KeyEvent::new(code, KeyModifiers { bits }))
}

#[test]
fn modifier_flags_have_their_bits() {
    assert_eq!(SHIFT, 1);
    assert_eq!(CONTROL, 2);
    assert_eq!(ALT, 4);
    assert_eq!(SUPER, 8);
    assert_eq!(HYPER, 16);
    assert_eq!(META, 32);
}

#[test]
fn empty_modifiers_hold_nothing() {
    let none = KeyModifiers::empty();
    assert_eq!(none.bits, 0);
    assert!(none.is_empty());
    assert!(!none.intersects(CONTROL));
    assert!(!none.contains(CONTROL));
    assert!(none.contains(0));
}

#[test]
fn intersects_needs_one_flag_and_contains_needs_all() {
    let held = KeyModifiers { bits: CONTROL | ALT };
    assert!(!held.is_empty());
    assert!(held.intersects(CONTROL));
    assert!(held.intersects(CONTROL | SHIFT));
    assert!(!held.intersects(SHIFT));
    assert!(!held.intersects(0));
    assert!(held.contains(CONTROL));
    assert!(held.contains(CONTROL | ALT));
    assert!(!held.contains(CONTROL | SHIFT));
}

#[test]
fn new_key_event_is_a_press_without_state() {
    let event = KeyEvent::new(KeyCode::F(3), KeyModifiers { bits: SHIFT });
    assert_eq!(event.code, KeyCode::F(3));
    assert_eq!(event.modifiers, KeyModifiers { bits: SHIFT });
    assert_eq!(event.kind, KeyEventKind::Press);
    assert_eq!(event.state, KeyEventState { bits: 0 });
}

#[test]
fn control_c_is_the_quit_chord() {
    assert!(Executor::check_if_quit(&key(KeyCode::Char('c'), CONTROL)));
}

#[test]
fn control_c_with_more_modifiers_is_the_quit_chord() {
    assert!(Executor::check_if_quit(&key(KeyCode::Char('c'), CONTROL | SHIFT)));
    assert!(Executor::check_if_quit(&key(KeyCode::Char('c'), CONTROL | ALT | META)));
    assert!(Executor::check_if_quit(&key(KeyCode::Char('c'), 0xff)));
}

#[test]
fn c_without_control_is_not_the_quit_chord() {
    assert!(!Executor::check_if_quit(&key(KeyCode::Char('c'), 0)));
    assert!(!Executor::check_if_quit(&key(KeyCode::Char('c'), SHIFT | ALT)));
}

#[test]
fn other_keys_with_control_are_not_the_quit_chord() {
    assert!(!Executor::check_if_quit(&key(KeyCode::Char('C'), CONTROL)));
    assert!(!Executor::check_if_quit(&key(KeyCode::Char('d'), CONTROL)));
    assert!(!Executor::check_if_quit(&key(KeyCode::Enter, CONTROL)));
    assert!(!Executor::check_if_quit(&key(KeyCode::Esc, CONTROL)));
}

#[test]
fn release_of_control_c_is_the_quit_chord_too() {
    let release = Event::Key(KeyEvent {
        code: KeyCode::Char('c'),
        modifiers: KeyModifiers { bits: CONTROL },
        kind: KeyEventKind::Release,
        state: KeyEventState { bits: 0 },
    });
    assert!(Executor::check_if_quit(&release));
}

#[test]
fn events_that_are_no_key_are_not_the_quit_chord() {
    assert!(!Executor::check_if_quit(&Event::Resize(80, 24)));
    assert!(!Executor::check_if_quit(&Event::FocusGained));
    assert!(!Executor::check_if_quit(&Event::FocusLost));
    assert!(!Executor::check_if_quit(&Event::Paste(String::from("c"))));
    let click = Event::Mouse(MouseEvent {
        kind: MouseEventKind::Down(MouseButton::Left),
        column: 3,
        row: 4,
        modifiers: KeyModifiers { bits: CONTROL },
    });
    assert!(!Executor::check_if_quit(&click));
}
