use tui_react::command::Command;
use tui_react::event::{Event, KeyCode, KeyEvent, KeyModifiers, CONTROL};
use tui_react::executor::{Executor, InputStep};
use tui_react::react::React;
use tui_react::signal::{quit_signal, QuitPoll};

struct Recorder {
    handled: Vec<Event>,
    updated: Vec<i32>,
}

impl Recorder {
    fn new() -> Self {
        Recorder { handled: Vec::new(), updated: Vec::new() }
    }
}

impl React for Recorder {
    type Message = i32;

    fn init(&mut self) -> Command<i32> {
        Command::none()
    }

    fn handle(&mut self, event: Event) -> Command<i32> {
        let issued = match &event {
            Event::Key(key) if key.code == KeyCode::Up => Command::instant(5),
            Event::Key(key) if key.code == KeyCode::Down => Command::instant(-5),
            _ => Command::none(),
        };
        self.handled.push(event);
        issued
    }

    fn update(&mut self, message: i32) -> Command<i32> {
        self.updated.push(message);
        Command::none()
    }

    fn view(&self, _frame: ()) {}
}

fn key(code: KeyCode, bits: u8) -> Event {
    Event::Key(KeyEvent::new(code, KeyModifiers { bits }))
}

#[test]
fn end_of_events_closes_the_loop() {
    let mut app = Recorder::new();
    let (mut trigger, mut watch) = quit_signal();
    let step = Executor::on_event(&mut app, &mut trigger, None);
    assert!(matches!(step, InputStep::Closed));
    assert!(app.handled.is_empty());
    assert!(trigger.is_armed());
    assert_eq!(watch.poll(), QuitPoll::Pending);
}

#[test]
fn quit_chord_raises_the_signal_and_bypasses_the_application() {
    let mut app = Recorder::new();
    let (mut trigger, mut watch) = quit_signal();
    let step = Executor::on_event(&mut app, &mut trigger, Some(key(KeyCode::Char('c'), CONTROL)));
    assert!(matches!(step, InputStep::Quit));
    assert!(app.handled.is_empty());
    assert!(app.updated.is_empty());
    assert!(!trigger.is_armed());
    assert_eq!(watch.poll(), QuitPoll::Fired);
}

#[test]
fn second_quit_chord_is_no_failure() {
    let mut app = Recorder::new();
    let (mut trigger, mut watch) = quit_signal();
    let chord = key(KeyCode::Char('c'), CONTROL);
    assert!(matches!(
        Executor::on_event(&mut app, &mut trigger, Some(chord.clone())),
        InputStep::Quit
    ));
    assert!(matches!(Executor::on_event(&mut app, &mut trigger, Some(chord)), InputStep::Quit));
    assert!(app.handled.is_empty());
    assert_eq!(watch.poll(), QuitPoll::Fired);
}

#[test]
fn other_event_is_handled_and_leaves_the_signal_alone() {
    let mut app = Recorder::new();
    let (mut trigger, mut watch) = quit_signal();
    let step = Executor::on_event(&mut app, &mut trigger, Some(Event::Resize(80, 24)));
    assert!(matches!(step, InputStep::Handled(Command::Nothing)));
    assert_eq!(app.handled, vec![Event::Resize(80, 24)]);
    assert!(trigger.is_armed());
    assert_eq!(watch.poll(), QuitPoll::Pending);
}

#[test]
fn bound_key_issues_instant_five() {
    let mut app = Recorder::new();
    let (mut trigger, _watch) = quit_signal();
    let step = Executor::on_event(&mut app, &mut trigger, Some(key(KeyCode::Up, 0)));
    assert!(matches!(step, InputStep::Handled(Command::Instant(5))));
    let step = Executor::on_event(&mut app, &mut trigger, Some(key(KeyCode::Down, 0)));
    assert!(matches!(step, InputStep::Handled(Command::Instant(-5))));
}

#[test]
fn events_are_handled_once_each_in_arrival_order() {
    let mut app = Recorder::new();
    let (mut trigger, _watch) = quit_signal();
    let events = vec![
        key(KeyCode::Up, 0),
        Event::Resize(10, 20),
        key(KeyCode::Char('c'), 0),
        Event::FocusLost,
        key(KeyCode::Char('x'), CONTROL),
        Event::Paste(String::from("text")),
        key(KeyCode::Up, 0),
    ];
    for event in events.iter() {
        let step = Executor::on_event(&mut app, &mut trigger, Some(event.clone()));
        assert!(matches!(step, InputStep::Handled(_)));
    }
    assert_eq!(app.handled, events);
    assert!(trigger.is_armed());
}

#[test]
fn quit_chord_among_events_is_the_only_one_not_handled() {
    let mut app = Recorder::new();
    let (mut trigger, _watch) = quit_signal();
    let before = vec![key(KeyCode::Up, 0), Event::Resize(1, 2)];
    for event in before.iter() {
        Executor::on_event(&mut app, &mut trigger, Some(event.clone()));
    }
    let step = Executor::on_event(&mut app, &mut trigger, Some(key(KeyCode::Char('c'), CONTROL)));
    assert!(matches!(step, InputStep::Quit));
    assert_eq!(app.handled, before);
}
