use waveshareoled::event::WrappedEvent;
use waveshareoled::event_bus::{EventBus, Received};
use waveshareoled::input::{
    armed_lines, classify, line_of, poll_step, ArmedLine, Edge, PollOutcome, PollerError,
    PollerStep,
};

#[test]
fn each_line_stands_for_its_event() {
    assert_eq!(classify(21), Some(WrappedEvent::Button1Press));
    assert_eq!(classify(20), Some(WrappedEvent::Button2Press));
    assert_eq!(classify(16), Some(WrappedEvent::Button3Press));
    assert_eq!(classify(5), Some(WrappedEvent::JoystickLeft));
    assert_eq!(classify(6), Some(WrappedEvent::JoystickUp));
    assert_eq!(classify(26), Some(WrappedEvent::JoystickRight));
    assert_eq!(classify(19), Some(WrappedEvent::JoystickDown));
    assert_eq!(classify(13), Some(WrappedEvent::JoystickPressed));
}

#[test]
fn other_lines_stand_for_nothing() {
    let known = [21u8, 20, 16, 5, 6, 26, 19, 13];
    for line in 0..=255u8 {
        if !known.contains(&line) {
            assert_eq!(classify(line), None, "line {line}");
        }
    }
    // The control lines of the display are no input lines.
    for line in [8u8, 18, 24, 25] {
        assert_eq!(classify(line), None);
    }
}

#[test]
fn lines_and_events_correspond() {
    for event in WrappedEvent::all() {
        assert_eq!(classify(line_of(event)), Some(event));
    }
    for line in 0..=255u8 {
        if let Some(event) = classify(line) {
            assert_eq!(line_of(event), line);
        }
    }
}

#[test]
fn all_lines_are_armed_for_the_rising_edge() {
    let lines = armed_lines();
    let expected: Vec<ArmedLine> = [21u8, 20, 16, 5, 6, 26, 19, 13]
        .iter()
        .map(|line| ArmedLine { line: *line, edge: Edge::Rising })
        .collect();
    assert_eq!(lines, expected);
}

#[test]
fn fired_line_is_published() {
    let mut bus = EventBus::new(4);
    let receiver = bus.subscribe().unwrap();
    assert_eq!(
        poll_step(&mut bus, PollOutcome::Fired(20)),
        PollerStep::Published(WrappedEvent::Button2Press)
    );
    assert_eq!(bus.receive(receiver), Received::Event(WrappedEvent::Button2Press));
    assert_eq!(bus.receive(receiver), Received::Empty);
}

#[test]
fn every_edge_gives_an_event() {
    let mut bus = EventBus::new(8);
    let receiver = bus.subscribe().unwrap();
    for _ in 0..3 {
        poll_step(&mut bus, PollOutcome::Fired(13));
    }
    assert_eq!(bus.backlog(receiver), Some(3));
}

#[test]
fn unknown_line_is_dropped_and_polling_goes_on() {
    let mut bus = EventBus::new(4);
    let receiver = bus.subscribe().unwrap();
    assert_eq!(poll_step(&mut bus, PollOutcome::Fired(7)), PollerStep::Dropped(7));
    assert_eq!(bus.receive(receiver), Received::Empty);
    assert_eq!(
        poll_step(&mut bus, PollOutcome::Fired(6)),
        PollerStep::Published(WrappedEvent::JoystickUp)
    );
}

#[test]
fn failed_wait_stops_the_poller() {
    let mut bus = EventBus::new(4);
    let receiver = bus.subscribe().unwrap();
    assert_eq!(
        poll_step(&mut bus, PollOutcome::Failed),
        PollerStep::Stopped(PollerError::PollFailed)
    );
    assert_eq!(
        poll_step(&mut bus, PollOutcome::Quiet),
        PollerStep::Stopped(PollerError::PollQuiet)
    );
    assert_eq!(bus.receive(receiver), Received::Empty);
}

#[test]
fn closed_bus_stops_the_poller() {
    let mut bus = EventBus::new(4);
    let receiver = bus.subscribe().unwrap();
    bus.close();
    assert_eq!(
        poll_step(&mut bus, PollOutcome::Fired(21)),
        PollerStep::Stopped(PollerError::BusClosed)
    );
    assert_eq!(bus.receive(receiver), Received::Closed);
    assert_eq!(poll_step(&mut bus, PollOutcome::Fired(99)), PollerStep::Dropped(99));
}

#[test]
fn publishing_without_subscribers_goes_on() {
    let mut bus = EventBus::new(4);
    assert_eq!(
        poll_step(&mut bus, PollOutcome::Fired(21)),
        PollerStep::Published(WrappedEvent::Button1Press)
    );
}
