//! The delivery task of a subscription: it takes events from its receiver
//! one by one and hands each to the callback of the client.
//!
//! The task itself runs outside this crate. Here is what it decides: what
//! to do with what the receiver gave, and how to go on after the callback
//! returned.

use crate::event::WrappedEvent;
use crate::event_bus::{BusModel, EventBus, Received};
use vstd::prelude::*;

verus! {

/// What the delivery task does next.
#[derive(Debug, Clone, Copy, PartialEq, Eq, Structural)]
pub enum DeliveryStep {
    /// Call the client with the canonical text of this event, then ask
    /// again.
    Deliver(WrappedEvent),
    /// Nothing waits: rest until something is published, then ask again.
    Wait,
    /// The bus is closed and drained, or the subscription has ended: leave.
    Finish,
}

/// How the delivery task goes on after the callback returned.
#[derive(Debug, Clone, Copy, PartialEq, Eq, Structural)]
pub struct Followup {
    /// Whether the failure of the callback is to be logged.
    pub log_failure: bool,
    /// Whether the task asks for the next event.
    pub keep_going: bool,
}

/// The step that follows from what the receiver gave.
pub open spec fn step_for(received: Received) -> DeliveryStep {
    match received {
        Received::Event(event) => DeliveryStep::Deliver(event),
        Received::Empty => DeliveryStep::Wait,
        Received::Closed => DeliveryStep::Finish,
        Received::Gone => DeliveryStep::Finish,
    }
}

/// How the task goes on after a callback that succeeded (`true`) or failed
/// (`false`): it keeps going either way; a failure is logged.
pub open spec fn followup(delivered: bool) -> Followup {
    Followup { log_failure: !delivered, keep_going: true }
}

/// Decides the next step from what the receiver gave.
pub fn decide(received: Received) -> (step: DeliveryStep)
    ensures
        step == step_for(received),
{
    match received {
        Received::Event(event) => DeliveryStep::Deliver(event),
        Received::Empty => DeliveryStep::Wait,
        Received::Closed => DeliveryStep::Finish,
        Received::Gone => DeliveryStep::Finish,
    }
}

/// Asks `receiver` for its next event and decides the next step of its
/// delivery task.
pub fn next_delivery(bus: &mut EventBus, receiver: u64) -> (step: DeliveryStep)
    requires
        old(bus).wf(),
    ensures
        final(bus).wf(),
        step == step_for(old(bus)@.next_for(receiver)),
        final(bus)@ == old(bus)@.receive(receiver),
{
    decide(bus.receive(receiver))
}

/// Decides how to go on after the callback returned. A callback that failed
/// does not end the subscription.
pub fn after_delivery(delivered: bool) -> (next: Followup)
    ensures
        next == followup(delivered),
{
    Followup { log_failure: !delivered, keep_going: true }
}

/// The events that the callback is called with while the delivery task of
/// `receiver` goes round once for each entry of `results`, entry `i` saying
/// whether the callback succeeds in round `i`. Nothing is published
/// meanwhile.
pub open spec fn delivered(bus: BusModel, receiver: u64, results: Seq<bool>) -> Seq<WrappedEvent>
    decreases results.len(),
{
    if results.len() == 0 {
        Seq::empty()
    } else {
        match step_for(bus.next_for(receiver)) {
            DeliveryStep::Deliver(event) => if followup(results[0]).keep_going {
                seq![event] + delivered(bus.receive(receiver), receiver, results.drop_first())
            } else {
                seq![event]
            },
            _ => Seq::empty(),
        }
    }
}

/// Whatever the callback returns, the client is handed the waiting events
/// one after the other, oldest first: a failed callback keeps none of the
/// later events from being delivered.
pub proof fn lemma_failed_delivery_does_not_stop(
    bus: BusModel,
    receiver: u64,
    results: Seq<bool>,
)
    requires
        bus.subscribed(receiver),
        results.len() <= bus.pending[receiver].len(),
    ensures
        delivered(bus, receiver, results) == bus.pending[receiver].take(results.len() as int),
    decreases results.len(),
{
    if results.len() == 0 {
        assert(delivered(bus, receiver, results) =~= bus.pending[receiver].take(0));
    } else {
        let rest = bus.receive(receiver);
        lemma_failed_delivery_does_not_stop(rest, receiver, results.drop_first());
        assert(rest.pending[receiver] == bus.pending[receiver].drop_first());
        assert(seq![bus.pending[receiver][0]] + bus.pending[receiver].drop_first().take(
            results.len() - 1,
        ) =~= bus.pending[receiver].take(results.len() as int));
    }
}

/// The event after one whose callback failed is delivered all the same.
pub proof fn lemma_next_event_after_failure(bus: BusModel, receiver: u64)
    requires
        bus.subscribed(receiver),
        bus.pending[receiver].len() >= 2,
    ensures
        delivered(bus, receiver, seq![false, true]) == seq![
            bus.pending[receiver][0],
            bus.pending[receiver][1],
        ],
{
    lemma_failed_delivery_does_not_stop(bus, receiver, seq![false, true]);
    assert(bus.pending[receiver].take(2) =~= seq![
        bus.pending[receiver][0],
        bus.pending[receiver][1],
    ]);
}

} // verus!
