//! What holds of the event bus over sequences of publications: who gets
//! which events, and in which order.

use crate::event::WrappedEvent;
use crate::event_bus::{window, BusModel};
use vstd::prelude::*;

verus! {

/// The bus after `events` were published one after the other.
pub open spec fn publish_all(bus: BusModel, events: Seq<WrappedEvent>) -> BusModel
    decreases events.len(),
{
    if events.len() == 0 {
        bus
    } else {
        publish_all(bus, events.drop_last()).publish(events.last())
    }
}

/// Publishing leads from a well-formed bus to a well-formed one.
pub proof fn lemma_publish_wf(bus: BusModel, event: WrappedEvent)
    requires
        bus.wf(),
    ensures
        bus.publish(event).wf(),
{
}

/// Subscribing leads from a well-formed bus to a well-formed one.
pub proof fn lemma_subscribe_wf(bus: BusModel)
    requires
        bus.wf(),
    ensures
        bus.subscribe().wf(),
{
}

/// Asking for the next event and removing a receiver lead from a
/// well-formed bus to a well-formed one.
pub proof fn lemma_receive_wf(bus: BusModel, id: u64)
    requires
        bus.wf(),
    ensures
        bus.receive(id).wf(),
        bus.unsubscribe(id).wf(),
{
}

/// Cutting a backlog down to the capacity before a new event arrives
/// changes nothing of what is kept afterwards.
pub proof fn lemma_window_push(backlog: Seq<WrappedEvent>, event: WrappedEvent, capacity: nat)
    ensures
        window(window(backlog, capacity).push(event), capacity) == window(
            backlog.push(event),
            capacity,
        ),
{
    assert(window(window(backlog, capacity).push(event), capacity) =~= window(
        backlog.push(event),
        capacity,
    ));
}

/// Publishing a sequence of events changes neither who is subscribed nor
/// the numbering, the capacity or the state of the publishing side.
pub proof fn lemma_publish_all_frame(bus: BusModel, events: Seq<WrappedEvent>)
    ensures
        publish_all(bus, events).capacity == bus.capacity,
        publish_all(bus, events).next_id == bus.next_id,
        publish_all(bus, events).closed == bus.closed,
        publish_all(bus, events).pending.dom() =~= bus.pending.dom(),
        bus.wf() ==> publish_all(bus, events).wf(),
    decreases events.len(),
{
    if events.len() > 0 {
        lemma_publish_all_frame(bus, events.drop_last());
    }
}

/// After a sequence of publications on an open bus, the backlog of a
/// receiver holds what it held before followed by the published events, in
/// the order of their publication, cut down to the newest that fit.
pub proof fn lemma_publish_all(bus: BusModel, events: Seq<WrappedEvent>, id: u64)
    requires
        bus.wf(),
        !bus.closed,
        bus.subscribed(id),
    ensures
        publish_all(bus, events).subscribed(id),
        publish_all(bus, events).pending[id] == window(bus.pending[id] + events, bus.capacity),
    decreases events.len(),
{
    lemma_publish_all_frame(bus, events);
    if events.len() == 0 {
        assert(bus.pending[id] + events =~= bus.pending[id]);
    } else {
        let head = events.drop_last();
        lemma_publish_all(bus, head, id);
        lemma_publish_all_frame(bus, head);
        lemma_window_push(bus.pending[id] + head, events.last(), bus.capacity);
        assert((bus.pending[id] + head).push(events.last()) =~= bus.pending[id] + events);
    }
}

/// Receivers that are subscribed while events are published, and whose
/// backlogs have room for them, all get every one of the events, in the
/// order of publication, behind what already waited for them.
pub proof fn lemma_subscribers_get_events_in_order(
    bus: BusModel,
    events: Seq<WrappedEvent>,
    first: u64,
    second: u64,
)
    requires
        bus.wf(),
        !bus.closed,
        bus.subscribed(first),
        bus.subscribed(second),
        bus.pending[first].len() + events.len() <= bus.capacity,
        bus.pending[second].len() + events.len() <= bus.capacity,
    ensures
        publish_all(bus, events).pending[first] == bus.pending[first] + events,
        publish_all(bus, events).pending[second] == bus.pending[second] + events,
{
    lemma_publish_all(bus, events, first);
    lemma_publish_all(bus, events, second);
}

/// A published event is the newest in the backlog of every subscribed
/// receiver, unless backlogs hold nothing at all.
pub proof fn lemma_publish_reaches_subscriber(bus: BusModel, event: WrappedEvent, id: u64)
    requires
        bus.wf(),
        !bus.closed,
        bus.capacity >= 1,
        bus.subscribed(id),
    ensures
        bus.publish(event).subscribed(id),
        bus.publish(event).pending[id].len() >= 1,
        bus.publish(event).pending[id].last() == event,
{
}

/// A receiver that subscribes after some events were published never gets
/// any of them: whatever is published later, its backlog holds events
/// published after it subscribed and nothing else.
pub proof fn lemma_late_subscriber_misses_history(
    bus: BusModel,
    earlier: Seq<WrappedEvent>,
    later: Seq<WrappedEvent>,
)
    requires
        bus.wf(),
        bus.open_for_subscription(),
    ensures
        ({
            let joined = publish_all(bus, earlier).subscribe();
            let late = bus.next_id as u64;
            &&& joined.subscribed(late)
            &&& !publish_all(bus, earlier).subscribed(late)
            &&& joined.pending[late] == Seq::<WrappedEvent>::empty()
            &&& publish_all(joined, later).pending[late] == window(later, bus.capacity)
        }),
{
    lemma_publish_all_frame(bus, earlier);
    let joined = publish_all(bus, earlier).subscribe();
    let late = bus.next_id as u64;
    lemma_subscribe_wf(publish_all(bus, earlier));
    lemma_publish_all(joined, later, late);
    assert(Seq::<WrappedEvent>::empty() + later =~= later);
}

/// Adding a receiver changes the backlog of no other receiver.
pub proof fn lemma_subscribe_keeps_others(bus: BusModel, id: u64)
    requires
        bus.wf(),
        bus.subscribed(id),
    ensures
        bus.subscribe().subscribed(id),
        bus.subscribe().pending[id] == bus.pending[id],
{
}

/// What one receiver takes or loses changes the backlog of no other
/// receiver.
pub proof fn lemma_receivers_are_independent(bus: BusModel, id: u64, other: u64)
    requires
        bus.subscribed(other),
        id != other,
    ensures
        bus.receive(id).subscribed(other),
        bus.receive(id).pending[other] == bus.pending[other],
        bus.unsubscribe(id).subscribed(other),
        bus.unsubscribe(id).pending[other] == bus.pending[other],
{
}

} // verus!
