use waveshareoled::delivery::{after_delivery, decide, next_delivery, DeliveryStep, Followup};
use waveshareoled::event::WrappedEvent;
use waveshareoled::event::WrappedEvent::{Button1Press, Button2Press, JoystickPressed};
use waveshareoled::event_bus::{EventBus, Received};

#[test]
fn step_follows_from_what_was_received() {
    assert_eq!(decide(Received::Event(JoystickPressed)), DeliveryStep::Deliver(JoystickPressed));
    assert_eq!(decide(Received::Empty), DeliveryStep::Wait);
    assert_eq!(decide(Received::Closed), DeliveryStep::Finish);
    assert_eq!(decide(Received::Gone), DeliveryStep::Finish);
}

#[test]
fn failed_callback_is_logged_and_the_task_goes_on() {
    assert_eq!(after_delivery(true), Followup { log_failure: false, keep_going: true });
    assert_eq!(after_delivery(false), Followup { log_failure: true, keep_going: true });
}

#[test]
fn failed_callback_does_not_keep_the_next_event_back() {
    let mut bus = EventBus::new(8);
    let receiver = bus.subscribe().unwrap();
    bus.publish(Button1Press).unwrap();
    bus.publish(Button2Press).unwrap();

    let results = [false, true];
    let mut calls: Vec<(String, bool)> = Vec::new();
    let mut round = 0;
    loop {
        match next_delivery(&mut bus, receiver) {
            DeliveryStep::Deliver(event) => {
                let delivered = results[round];
                round += 1;
                calls.push((event.to_string(), delivered));
                if !after_delivery(delivered).keep_going {
                    break;
                }
            }
            DeliveryStep::Wait | DeliveryStep::Finish => break,
        }
    }
    assert_eq!(calls, vec![("button1".to_string(), false), ("button2".to_string(), true)]);
}

#[test]
fn task_finishes_when_the_bus_is_closed_and_drained() {
    let mut bus = EventBus::new(8);
    let receiver = bus.subscribe().unwrap();
    bus.publish(Button1Press).unwrap();
    bus.close();
    assert_eq!(next_delivery(&mut bus, receiver), DeliveryStep::Deliver(Button1Press));
    assert_eq!(next_delivery(&mut bus, receiver), DeliveryStep::Finish);
}

#[test]
fn task_waits_while_nothing_is_published() {
    let mut bus = EventBus::new(8);
    let receiver = bus.subscribe().unwrap();
    assert_eq!(next_delivery(&mut bus, receiver), DeliveryStep::Wait);
    bus.publish(WrappedEvent::JoystickUp).unwrap();
    assert_eq!(next_delivery(&mut bus, receiver), DeliveryStep::Deliver(WrappedEvent::JoystickUp));
    assert_eq!(next_delivery(&mut bus, receiver), DeliveryStep::Wait);
}
