//! What holds of subscriptions over their life: connecting, connecting
//! again, and disconnecting.

use crate::delivery::{step_for, DeliveryStep};
use crate::event::WrappedEvent;
use crate::event_bus::BusModel;
use crate::subscription::{Connection, ManagerModel, SubscriptionModel};
use vstd::prelude::*;

verus! {

/// One operation on the event bus.
pub enum BusInput {
    Publish(WrappedEvent),
    Subscribe,
    Unsubscribe(u64),
    Receive(u64),
    Close,
}

/// The bus after one operation.
pub open spec fn bus_step(bus: BusModel, input: BusInput) -> BusModel {
    match input {
        BusInput::Publish(event) => bus.publish(event),
        BusInput::Subscribe => bus.subscribe(),
        BusInput::Unsubscribe(id) => bus.unsubscribe(id),
        BusInput::Receive(id) => bus.receive(id),
        BusInput::Close => bus.close(),
    }
}

/// The bus after a sequence of operations.
pub open spec fn bus_run(bus: BusModel, inputs: Seq<BusInput>) -> BusModel
    decreases inputs.len(),
{
    if inputs.len() == 0 {
        bus
    } else {
        bus_step(bus_run(bus, inputs.drop_last()), inputs.last())
    }
}

/// Whether receiver `id` was given out and has left the bus.
pub open spec fn retired(bus: BusModel, id: u64) -> bool {
    id < bus.next_id && !bus.subscribed(id)
}

/// A receiver that has left the bus never comes back, whatever happens on
/// the bus: its number is not given out again, so the task that held it is
/// told to finish whenever it asks, and is handed no event.
pub proof fn lemma_retired_for_good(bus: BusModel, id: u64, inputs: Seq<BusInput>)
    requires
        retired(bus, id),
    ensures
        retired(bus_run(bus, inputs), id),
        step_for(bus_run(bus, inputs).next_for(id)) == DeliveryStep::Finish,
    decreases inputs.len(),
{
    if inputs.len() > 0 {
        lemma_retired_for_good(bus, id, inputs.drop_last());
    }
}

/// The subscription of a client is found at its place.
pub proof fn lemma_lookup<H>(manager: ManagerModel<H>, at: int)
    requires
        manager.wf(),
        0 <= at < manager.subscriptions.len(),
    ensures
        manager.subscribed(manager.subscriptions[at].client),
        manager.position(manager.subscriptions[at].client) == at,
        manager.lookup(manager.subscriptions[at].client) == Some(manager.subscriptions[at]),
{
}

/// The subscriptions that stay when a client leaves are those of before,
/// in their order.
proof fn lemma_without_places<H>(manager: ManagerModel<H>, client: Seq<char>)
    requires
        manager.subscribed(client),
    ensures
        manager.without(client).subscriptions.len() + 1 == manager.subscriptions.len(),
        forall|j: int|
            0 <= j < manager.without(client).subscriptions.len() ==> #[trigger] manager.without(
                client,
            ).subscriptions[j] == manager.subscriptions[if j < manager.position(client) {
                j
            } else {
                j + 1
            }],
{
}

/// Ending the subscription of a client leaves a well-formed manager in
/// which the client is not subscribed.
pub proof fn lemma_without_wf<H>(manager: ManagerModel<H>, client: Seq<char>)
    requires
        manager.wf(),
    ensures
        manager.without(client).wf(),
        !manager.without(client).subscribed(client),
        manager.without(client).subscriptions.len() <= manager.subscriptions.len(),
{
    let after = manager.without(client);
    if manager.subscribed(client) {
        let at = manager.position(client);
        lemma_without_places(manager, client);
        if after.subscribed(client) {
            let j = after.position(client);
            assert(manager.subscriptions[if j < at {
                j
            } else {
                j + 1
            }].client == client);
        }
    }
}

/// Ending the subscription of a client leaves a manager that is fed by the
/// bus as it is afterwards.
pub proof fn lemma_without_fed_by<H>(manager: ManagerModel<H>, bus: BusModel, client: Seq<char>)
    requires
        manager.fed_by(bus),
    ensures
        manager.without(client).fed_by(manager.released(bus, client)),
{
    if manager.subscribed(client) {
        lemma_without_places(manager, client);
    }
}

/// Ending the subscription of a client leaves every other client subscribed
/// as before.
pub proof fn lemma_without_keeps_others<H>(
    manager: ManagerModel<H>,
    client: Seq<char>,
    other: Seq<char>,
)
    requires
        manager.wf(),
        other != client,
    ensures
        manager.without(client).lookup(other) == manager.lookup(other),
{
    let after = manager.without(client);
    lemma_without_wf(manager, client);
    if manager.subscribed(client) {
        let at = manager.position(client);
        lemma_without_places(manager, client);
        if manager.subscribed(other) {
            let k = manager.position(other);
            let moved = if k < at {
                k
            } else {
                k - 1
            };
            assert(after.subscriptions[moved] == manager.subscriptions[k]);
            lemma_lookup(after, moved);
        } else {
            if after.subscribed(other) {
                let j = after.position(other);
                assert(manager.subscriptions[if j < at {
                    j
                } else {
                    j + 1
                }].client == other);
            }
        }
    }
}

/// Connecting a client leaves a well-formed manager that is fed by the bus
/// as it is afterwards.
pub proof fn lemma_connect_wf<H>(
    manager: ManagerModel<H>,
    bus: BusModel,
    client: Seq<char>,
    task: H,
)
    requires
        manager.wf(),
        bus.wf(),
        manager.fed_by(bus),
    ensures
        manager.connect(bus, client, task).wf(),
        manager.bus_after_connect(bus, client).wf(),
        manager.connect(bus, client, task).fed_by(manager.bus_after_connect(bus, client)),
{
    if bus.open_for_subscription() {
        let fresh = SubscriptionModel { client, receiver: bus.next_id as u64, task };
        let kept = manager.without(client);
        let after = manager.connect(bus, client, task);
        lemma_without_wf(manager, client);
        if manager.subscribed(client) {
            lemma_without_places(manager, client);
        }
        assert forall|j: int| 0 <= j < kept.subscriptions.len() implies (
        #[trigger] kept.subscriptions[j]).client != client && kept.subscriptions[j].receiver
            < bus.next_id by {
            if kept.subscriptions[j].client == client {
                assert(kept.subscribed(client));
            }
        }
        assert forall|j: int| 0 <= j < after.subscriptions.len() implies after.subscriptions[j]
            == (if j < kept.subscriptions.len() {
            kept.subscriptions[j]
        } else {
            fresh
        }) by {}
    }
}

/// A client that connects twice in a row has exactly one subscription: the
/// second. The second connection hands back the task of the first for
/// cancellation, and the receiver of the first has left the bus for good.
pub proof fn lemma_reconnect_keeps_one<H>(
    manager: ManagerModel<H>,
    bus: BusModel,
    client: Seq<char>,
    first: H,
    second: H,
)
    requires
        manager.wf(),
        bus.wf(),
        manager.fed_by(bus),
        !bus.closed,
        bus.next_id + 1 < u64::MAX,
    ensures
        ({
            let once = manager.connect(bus, client, first);
            let bus_once = manager.bus_after_connect(bus, client);
            let twice = once.connect(bus_once, client, second);
            let bus_twice = once.bus_after_connect(bus_once, client);
            let earlier = bus.next_id as u64;
            let later = (bus.next_id + 1) as u64;
            &&& twice.wf()
            &&& twice.lookup(client) == Some(
                SubscriptionModel { client, receiver: later, task: second },
            )
            &&& forall|i: int, j: int|
                0 <= i < twice.subscriptions.len() && 0 <= j < twice.subscriptions.len()
                    && twice.subscriptions[i].client == client && twice.subscriptions[j].client
                    == client ==> i == j
            &&& once.connection(bus_once, client, second) == (Connection::Accepted {
                receiver: later,
                replaced: Some(first),
            })
            &&& bus_twice.subscribed(later)
            &&& retired(bus_twice, earlier)
        }),
{
    let once = manager.connect(bus, client, first);
    let bus_once = manager.bus_after_connect(bus, client);
    lemma_connect_wf(manager, bus, client, first);
    lemma_lookup(once, once.subscriptions.len() - 1);
    let twice = once.connect(bus_once, client, second);
    lemma_connect_wf(once, bus_once, client, second);
    lemma_lookup(twice, twice.subscriptions.len() - 1);
}

/// When a client disconnects, its task is handed back for cancellation and
/// its receiver has left the bus: whatever the task was in the middle of,
/// it is told to finish when it asks next and is handed no further event.
/// Every other client stays subscribed, with the same receiver, the same
/// task and the same waiting events.
pub proof fn lemma_disconnect_is_isolated<H>(
    manager: ManagerModel<H>,
    bus: BusModel,
    leaving: Seq<char>,
    staying: Seq<char>,
)
    requires
        manager.wf(),
        manager.fed_by(bus),
        manager.subscribed(leaving),
        manager.subscribed(staying),
        leaving != staying,
        bus.subscribed(manager.lookup(staying)->Some_0.receiver),
    ensures
        ({
            let after = manager.without(leaving);
            let bus_after = manager.released(bus, leaving);
            let gone = manager.lookup(leaving)->Some_0;
            let kept = manager.lookup(staying)->Some_0;
            &&& manager.cancelled(leaving) == Some(gone.task)
            &&& !after.subscribed(leaving)
            &&& retired(bus_after, gone.receiver)
            &&& step_for(bus_after.next_for(gone.receiver)) == DeliveryStep::Finish
            &&& after.lookup(staying) == Some(kept)
            &&& bus_after.subscribed(kept.receiver)
            &&& bus_after.pending[kept.receiver] == bus.pending[kept.receiver]
            &&& bus_after.next_for(kept.receiver) == bus.next_for(kept.receiver)
        }),
{
    lemma_without_wf(manager, leaving);
    lemma_without_keeps_others(manager, leaving, staying);
}

} // verus!
