use waveshareoled::event::WrappedEvent;
use waveshareoled::event::WrappedEvent::{
    Button1Press, Button2Press, Button3Press, JoystickDown, JoystickUp,
};
use waveshareoled::event_bus::{BusClosed, EventBus, Received};

fn drain(bus: &mut EventBus, receiver: u64) -> Vec<WrappedEvent> {
    let mut events = Vec::new();
    while let Received::Event(event) = bus.receive(receiver) {
        events.push(event);
    }
    events
}

#[test]
fn subscribers_get_events_in_published_order_and_late_ones_miss_history() {
    let mut bus = EventBus::new(1000);
    let first = bus.subscribe().unwrap();
    let second = bus.subscribe().unwrap();
    assert_ne!(first, second);
    bus.publish(Button1Press).unwrap();
    bus.publish(JoystickUp).unwrap();
    let late = bus.subscribe().unwrap();
    bus.publish(Button2Press).unwrap();

    assert_eq!(drain(&mut bus, first), vec![Button1Press, JoystickUp, Button2Press]);
    assert_eq!(drain(&mut bus, second), vec![Button1Press, JoystickUp, Button2Press]);
    assert_eq!(drain(&mut bus, late), vec![Button2Press]);
}

#[test]
fn receivers_consume_at_their_own_pace() {
    let mut bus = EventBus::new(8);
    let fast = bus.subscribe().unwrap();
    let slow = bus.subscribe().unwrap();
    bus.publish(Button1Press).unwrap();
    assert_eq!(bus.receive(fast), Received::Event(Button1Press));
    bus.publish(Button2Press).unwrap();
    assert_eq!(bus.receive(fast), Received::Event(Button2Press));
    assert_eq!(bus.receive(fast), Received::Empty);
    assert_eq!(bus.backlog(slow), Some(2));
    assert_eq!(drain(&mut bus, slow), vec![Button1Press, Button2Press]);
}

#[test]
fn slow_receiver_loses_its_oldest_events() {
    let mut bus = EventBus::new(3);
    assert_eq!(bus.capacity(), 3);
    let slow = bus.subscribe().unwrap();
    for event in [Button1Press, Button2Press, Button3Press, JoystickUp, JoystickDown] {
        assert_eq!(bus.publish(event), Ok(()));
    }
    assert_eq!(bus.backlog(slow), Some(3));
    assert_eq!(drain(&mut bus, slow), vec![Button3Press, JoystickUp, JoystickDown]);
}

#[test]
fn bus_without_room_delivers_nothing() {
    let mut bus = EventBus::new(0);
    let receiver = bus.subscribe().unwrap();
    assert_eq!(bus.publish(Button1Press), Ok(()));
    assert_eq!(bus.receive(receiver), Received::Empty);
}

#[test]
fn receiver_numbers_are_given_out_in_order() {
    let mut bus = EventBus::new(1);
    assert_eq!(bus.subscribe(), Some(0));
    assert_eq!(bus.subscribe(), Some(1));
    assert!(bus.unsubscribe(0));
    assert_eq!(bus.subscribe(), Some(2));
    assert!(!bus.is_subscribed(0));
    assert!(bus.is_subscribed(1));
    assert!(bus.is_subscribed(2));
}

#[test]
fn removed_receiver_is_gone() {
    let mut bus = EventBus::new(4);
    let leaving = bus.subscribe().unwrap();
    let staying = bus.subscribe().unwrap();
    bus.publish(Button1Press).unwrap();
    assert!(bus.unsubscribe(leaving));
    assert!(!bus.unsubscribe(leaving));
    assert_eq!(bus.receive(leaving), Received::Gone);
    assert_eq!(bus.backlog(leaving), None);
    bus.publish(Button2Press).unwrap();
    assert_eq!(bus.receive(leaving), Received::Gone);
    assert_eq!(drain(&mut bus, staying), vec![Button1Press, Button2Press]);
    assert_eq!(bus.receive(77), Received::Gone);
}

#[test]
fn closed_bus_is_drained_then_says_so() {
    let mut bus = EventBus::new(4);
    let receiver = bus.subscribe().unwrap();
    bus.publish(Button1Press).unwrap();
    assert!(!bus.is_closed());
    assert!(bus.accepts_subscribers());
    bus.close();
    assert!(bus.is_closed());
    assert!(!bus.accepts_subscribers());
    assert_eq!(bus.publish(Button2Press), Err(BusClosed));
    assert_eq!(bus.subscribe(), None);
    assert_eq!(bus.receive(receiver), Received::Event(Button1Press));
    assert_eq!(bus.receive(receiver), Received::Closed);
    assert_eq!(bus.receive(receiver), Received::Closed);
}

#[test]
fn empty_backlog_of_open_bus_is_empty() {
    let mut bus = EventBus::new(4);
    let receiver = bus.subscribe().unwrap();
    assert_eq!(bus.receive(receiver), Received::Empty);
    assert_eq!(bus.backlog(receiver), Some(0));
}
