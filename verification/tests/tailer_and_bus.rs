//! Behaviour of the tailer state machine, the event bus and the dispatcher
//! policies.

use tailers::cursor::TailTarget;
use tailers::dispatch::{is_fatal, plan_targets, EventBus, TailError};
use tailers::tailer::{Action, Phase, Signal, Tailer};

fn tailer_on(path: &str) -> Tailer {
    Tailer::new(TailTarget::new(String::from(path), 0))
}

#[test]
fn write_notification_triggers_a_drain() {
    let tailer = tailer_on("/var/log/a.log");
    assert_eq!(tailer.decide(&Signal::Write), Action::Drain);
}

#[test]
fn other_notifications_are_ignored() {
    let tailer = tailer_on("/var/log/a.log");
    assert_eq!(tailer.decide(&Signal::Other), Action::Ignore);
}

#[test]
fn source_error_stops_only_this_tailer() {
    let mut tailer = tailer_on("/var/log/a.log");
    assert_eq!(tailer.decide(&Signal::SourceError), Action::Stop);
    tailer.stop();
    assert_eq!(tailer.phase, Phase::Terminated);
    assert_eq!(tailer.decide(&Signal::Write), Action::Ignore);
}

#[test]
fn drained_events_carry_the_path_in_file_order() {
    let mut tailer = tailer_on("/var/log/a.log");
    let events = tailer.drain(&b"x\ny\n".to_vec());
    assert_eq!(events.len(), 2);
    assert_eq!(events[0].path, "/var/log/a.log");
    assert_eq!(events[0].line, b"x".to_vec());
    assert_eq!(events[1].path, "/var/log/a.log");
    assert_eq!(events[1].line, b"y".to_vec());
}

#[test]
fn successful_read_is_drained() {
    let mut tailer = tailer_on("/var/log/a.log");
    let events = tailer.handle_read(Some(b"one\ntwo\n".to_vec())).unwrap();
    assert_eq!(events.len(), 2);
    assert_eq!(events[0].line, b"one".to_vec());
    assert_eq!(events[1].line, b"two".to_vec());
    assert_eq!(tailer.phase, Phase::Idle);
}

#[test]
fn failed_read_terminates_this_tailer_and_emits_nothing() {
    let mut tailer = tailer_on("/var/log/a.log");
    assert!(tailer.handle_read(None).is_none());
    assert_eq!(tailer.phase, Phase::Terminated);
    assert_eq!(tailer.target.cursor, 0);
}

#[test]
fn failing_tailer_does_not_stop_a_healthy_one() {
    // A read error terminates one tailer; the other keeps emitting and its
    // events still reach the consumer through the bus.
    let mut failing = tailer_on("/var/log/a.log");
    let mut healthy = tailer_on("/var/log/b.log");
    let mut bus = EventBus::new();

    for event in failing.drain(&b"first\n".to_vec()) {
        bus.send(event);
    }
    failing.stop();
    assert!(!is_fatal(&TailError::ReadError));

    for event in healthy.drain(&b"second\n".to_vec()) {
        bus.send(event);
    }

    let first = bus.recv().unwrap();
    assert_eq!(first.path, "/var/log/a.log");
    let second = bus.recv().unwrap();
    assert_eq!(second.path, "/var/log/b.log");
    assert_eq!(second.line, b"second".to_vec());
}

#[test]
fn bus_delivers_in_arrival_order_per_file() {
    let mut a = tailer_on("/var/log/a.log");
    let mut b = tailer_on("/var/log/b.log");
    let mut bus = EventBus::new();

    for event in a.drain(&b"a1\n".to_vec()) {
        bus.send(event);
    }
    for event in b.drain(&b"b1\n".to_vec()) {
        bus.send(event);
    }
    for event in a.drain(&b"a2\na3\n".to_vec()) {
        bus.send(event);
    }

    let mut from_a: Vec<Vec<u8>> = Vec::new();
    while let Some(event) = bus.recv() {
        if event.path == "/var/log/a.log" {
            from_a.push(event.line);
        }
    }
    assert_eq!(from_a, vec![b"a1".to_vec(), b"a2".to_vec(), b"a3".to_vec()]);
}

#[test]
fn empty_bus_yields_nothing() {
    let mut bus = EventBus::new();
    assert!(bus.recv().is_none());
}

#[test]
fn startup_fails_as_a_whole_on_one_missing_path() {
    let opens = vec![
        (String::from("/var/log/a.log"), Some(3u64)),
        (String::from("/var/log/missing.log"), None),
    ];
    let planned = plan_targets(&opens);
    match planned {
        Err(e) => {
            assert_eq!(e, TailError::OpenError);
            assert!(is_fatal(&e));
        },
        Ok(_) => panic!("a missing path must abort startup"),
    }
}

#[test]
fn startup_opens_every_path_at_its_end() {
    let opens = vec![
        (String::from("/var/log/a.log"), Some(3u64)),
        (String::from("/var/log/b.log"), Some(0u64)),
    ];
    let targets = plan_targets(&opens).unwrap();
    assert_eq!(targets.len(), 2);
    assert_eq!(targets[0].path, "/var/log/a.log");
    assert_eq!(targets[0].cursor, 3);
    assert_eq!(targets[1].path, "/var/log/b.log");
    assert_eq!(targets[1].cursor, 0);
}

#[test]
fn only_per_file_errors_are_survivable() {
    assert!(is_fatal(&TailError::OpenError));
    assert!(is_fatal(&TailError::WatchSetupError));
    assert!(is_fatal(&TailError::BusClosedError));
    assert!(!is_fatal(&TailError::ReadError));
    assert!(!is_fatal(&TailError::NotificationSourceError));
}
