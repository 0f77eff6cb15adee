use tui_react::signal::{quit_signal, QuitPoll};

#[test]
fn fresh_signal_is_armed_and_pending() {
    let (trigger, mut watch) = quit_signal();
    assert!(trigger.is_armed());
    assert_eq!(watch.poll(), QuitPoll::Pending);
    assert_eq!(watch.poll(), QuitPoll::Pending);
}

#[test]
fn signal_fires_once() {
    let (mut trigger, mut watch) = quit_signal();
    assert!(trigger.fire());
    assert!(!trigger.is_armed());
    assert!(!trigger.fire());
    assert!(!trigger.is_armed());
    assert_eq!(watch.poll(), QuitPoll::Fired);
}

#[test]
fn fired_signal_is_seen_by_one_poll() {
    let (mut trigger, mut watch) = quit_signal();
    trigger.fire();
    assert_eq!(watch.poll(), QuitPoll::Fired);
    assert_eq!(watch.poll(), QuitPoll::Closed);
}

#[test]
fn dropped_trigger_closes_the_signal() {
    let (trigger, mut watch) = quit_signal();
    drop(trigger);
    assert_eq!(watch.poll(), QuitPoll::Closed);
}

#[test]
fn firing_without_a_watch_is_no_failure() {
    let (mut trigger, watch) = quit_signal();
    drop(watch);
    assert!(trigger.fire());
    assert!(!trigger.is_armed());
}

#[test]
fn closed_signal_stays_closed() {
    let (trigger, mut watch) = quit_signal();
    drop(trigger);
    assert_eq!(watch.poll(), QuitPoll::Closed);
    assert_eq!(watch.poll(), QuitPoll::Closed);
}

#[test]
fn pending_signal_can_still_fire() {
    let (mut trigger, mut watch) = quit_signal();
    assert_eq!(watch.poll(), QuitPoll::Pending);
    assert_eq!(watch.poll(), QuitPoll::Pending);
    assert!(trigger.fire());
    assert_eq!(watch.poll(), QuitPoll::Fired);
    assert_eq!(watch.poll(), QuitPoll::Closed);
    assert_eq!(watch.poll(), QuitPoll::Closed);
}
