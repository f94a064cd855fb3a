use waveshareoled::bus::{BusError, BusOp, WriteOutcome};
use waveshareoled::delivery::DeliveryStep;
use waveshareoled::display::SubmitError;
use waveshareoled::event::WrappedEvent;
use waveshareoled::input::{PollOutcome, PollerError, PollerStep};
use waveshareoled::provider::Provider;
use waveshareoled::subscription::Connection;
use waveshareoled::text::render;

fn ready_provider() -> Provider<u32> {
    let mut provider: Provider<u32> = Provider::new(1000, 1000);
    loop {
        let expected = match provider.next_bring_up_step() {
            Some(op) => op.expected_len(),
            None => break,
        };
        provider.report_bring_up(WriteOutcome::Written(expected)).unwrap();
    }
    assert!(provider.is_ready());
    provider
}

fn pushed_pages(provider: &mut Provider<u32>) -> Option<Vec<Vec<u8>>> {
    let mut script = provider.render_next()?;
    let mut pages = Vec::new();
    loop {
        let written = match script.current() {
            Some(BusOp::Data(bytes)) => {
                pages.push(bytes.clone());
                bytes.len()
            }
            Some(op) => op.expected_len(),
            None => break,
        };
        script.report(WriteOutcome::Written(written)).unwrap();
    }
    assert!(provider.finish_push(&script));
    Some(pages)
}

#[test]
fn draw_message_and_clear_reach_the_panel_in_order() {
    let mut provider = ready_provider();
    assert_eq!(provider.draw_message("a"), Ok(()));
    assert_eq!(provider.clear(), Ok(()));
    assert_eq!(provider.draw_message("b"), Ok(()));
    let expected = |text: &str| -> Vec<Vec<u8>> {
        let frame = render(text).unwrap();
        (0..8).map(|page| frame.page(page).unwrap()).collect()
    };
    assert_eq!(pushed_pages(&mut provider), Some(expected("a")));
    assert_eq!(pushed_pages(&mut provider), Some(vec![vec![0u8; 128]; 8]));
    assert_eq!(pushed_pages(&mut provider), Some(expected("b")));
    assert_eq!(pushed_pages(&mut provider), None);
}

#[test]
fn provider_serves_nothing_before_bring_up() {
    let mut provider: Provider<u32> = Provider::new(10, 10);
    assert!(!provider.is_ready());
    assert_eq!(provider.draw_message("hello"), Err(SubmitError::NotReady));
    assert_eq!(provider.clear(), Err(SubmitError::NotReady));
    assert!(provider.render_next().is_none());
}

#[test]
fn provider_with_failed_bring_up_never_serves() {
    let mut provider: Provider<u32> = Provider::new(10, 10);
    for _ in 0..5 {
        provider.report_bring_up(WriteOutcome::Written(0)).unwrap();
    }
    assert_eq!(
        provider.report_bring_up(WriteOutcome::Written(0)),
        Err(BusError::ShortWrite { expected: 1, written: 0 })
    );
    assert!(provider.next_bring_up_step().is_none());
    assert_eq!(provider.draw_message("hello"), Err(SubmitError::NotReady));
    assert_eq!(provider.clear(), Err(SubmitError::NotReady));
    assert!(provider.render_next().is_none());
    assert!(!provider.is_ready());
}

#[test]
fn events_fan_out_to_subscribers() {
    let mut provider = ready_provider();
    let alice = match provider.subscribe("alice", 1) {
        Connection::Accepted { receiver, replaced: None } => receiver,
        other => panic!("unexpected outcome {other:?}"),
    };
    let bob = match provider.subscribe("bob", 2) {
        Connection::Accepted { receiver, replaced: None } => receiver,
        other => panic!("unexpected outcome {other:?}"),
    };
    assert_eq!(
        provider.poll(PollOutcome::Fired(21)),
        PollerStep::Published(WrappedEvent::Button1Press)
    );
    let carol = match provider.subscribe("carol", 3) {
        Connection::Accepted { receiver, replaced: None } => receiver,
        other => panic!("unexpected outcome {other:?}"),
    };
    assert_eq!(
        provider.poll(PollOutcome::Fired(6)),
        PollerStep::Published(WrappedEvent::JoystickUp)
    );
    for receiver in [alice, bob] {
        assert_eq!(
            provider.next_delivery(receiver),
            DeliveryStep::Deliver(WrappedEvent::Button1Press)
        );
        assert_eq!(
            provider.next_delivery(receiver),
            DeliveryStep::Deliver(WrappedEvent::JoystickUp)
        );
        assert_eq!(provider.next_delivery(receiver), DeliveryStep::Wait);
    }
    assert_eq!(provider.next_delivery(carol), DeliveryStep::Deliver(WrappedEvent::JoystickUp));
    assert_eq!(provider.next_delivery(carol), DeliveryStep::Wait);
}

#[test]
fn unsubscribe_hands_back_the_task() {
    let mut provider = ready_provider();
    provider.subscribe("alice", 7);
    assert!(provider.is_subscribed("alice"));
    assert_eq!(provider.unsubscribe("alice"), Some(7));
    assert!(!provider.is_subscribed("alice"));
    assert_eq!(provider.unsubscribe("alice"), None);
    assert_eq!(provider.next_delivery(0), DeliveryStep::Finish);
}

#[test]
fn resubscribing_replaces_the_task() {
    let mut provider = ready_provider();
    assert_eq!(
        provider.subscribe("alice", 7),
        Connection::Accepted { receiver: 0, replaced: None }
    );
    assert_eq!(
        provider.subscribe("alice", 8),
        Connection::Accepted { receiver: 1, replaced: Some(7) }
    );
    assert_eq!(provider.unsubscribe("alice"), Some(8));
}

#[test]
fn shutdown_cancels_everything_and_closes_the_bus() {
    let mut provider = ready_provider();
    provider.subscribe("alice", 1);
    provider.subscribe("bob", 2);
    assert_eq!(provider.shutdown(), vec![1, 2]);
    assert!(!provider.is_subscribed("alice"));
    assert!(!provider.is_subscribed("bob"));
    assert_eq!(provider.subscribe("carol", 3), Connection::Rejected { task: 3 });
    assert_eq!(
        provider.poll(PollOutcome::Fired(21)),
        PollerStep::Stopped(PollerError::BusClosed)
    );
    assert_eq!(provider.next_delivery(0), DeliveryStep::Finish);
    assert_eq!(provider.shutdown(), Vec::<u32>::new());
}
