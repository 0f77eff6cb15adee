use tui_react::command::Command;
use tui_react::event::Event;
use tui_react::executor::{Executor, UpdateStep};
use tui_react::react::React;

struct Counter {
    total: i32,
    applied: Vec<i32>,
}

impl React for Counter {
    type Message = i32;

    fn init(&mut self) -> Command<i32> {
        Command::none()
    }

    fn handle(&mut self, _event: Event) -> Command<i32> {
        Command::none()
    }

    fn update(&mut self, message: i32) -> Command<i32> {
        self.total += message;
        self.applied.push(message);
        if message == 100 {
            Command::instant(1)
        } else {
            Command::none()
        }
    }

    fn view(&self, _frame: ()) {}
}

#[test]
fn closed_queue_closes_the_loop() {
    let mut app = Counter { total: 7, applied: Vec::new() };
    let step = Executor::on_message(&mut app, None);
    assert!(matches!(step, UpdateStep::Closed));
    assert_eq!(app.total, 7);
    assert!(app.applied.is_empty());
}

#[test]
fn message_is_applied_once() {
    let mut app = Counter { total: 0, applied: Vec::new() };
    let step = Executor::on_message(&mut app, Some(5));
    assert!(matches!(step, UpdateStep::Updated(Command::Nothing)));
    assert_eq!(app.total, 5);
    assert_eq!(app.applied, vec![5]);
}

#[test]
fn update_may_issue_a_further_command() {
    let mut app = Counter { total: 0, applied: Vec::new() };
    let step = Executor::on_message(&mut app, Some(100));
    assert!(matches!(step, UpdateStep::Updated(Command::Instant(1))));
    assert_eq!(app.total, 100);
}

#[test]
fn messages_are_applied_in_the_order_taken() {
    let mut app = Counter { total: 0, applied: Vec::new() };
    for message in [4, -9, 2, 2] {
        assert!(matches!(Executor::on_message(&mut app, Some(message)), UpdateStep::Updated(_)));
    }
    assert_eq!(app.applied, vec![4, -9, 2, 2]);
    assert_eq!(app.total, -1);
}
