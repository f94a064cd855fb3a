//! The subscription manager: which client is subscribed, through which
//! receiver of the event bus, and which task delivers to it.
//!
//! The manager is the one place that says whether a client is subscribed.
//! A client has at most one subscription at a time: connecting a client
//! that is subscribed already ends its earlier subscription first, and the
//! earlier task is handed back so that the caller cancels it.

use crate::event_bus::{BusModel, EventBus};
use vstd::prelude::*;
use vstd::string::StringExecFns;

verus! {

/// The mathematical value of one subscription.
pub struct SubscriptionModel<H> {
    /// The opaque identifier of the client.
    pub client: Seq<char>,
    /// The receiver of the event bus that feeds the client.
    pub receiver: u64,
    /// The handle of the task that delivers to the client.
    pub task: H,
}

/// The mathematical value of a [`SubscriptionManager`]: its subscriptions,
/// in the order in which they were made.
pub struct ManagerModel<H> {
    pub subscriptions: Seq<SubscriptionModel<H>>,
}

/// What became of a request to connect.
#[derive(Debug, PartialEq, Eq)]
pub enum Connection<H> {
    /// A subscription was made. `receiver` feeds it. `replaced` is the task
    /// of the subscription that the client had before, to be cancelled.
    Accepted { receiver: u64, replaced: Option<H> },
    /// No subscription was made, and none was ended. The task comes back.
    Rejected { task: H },
}

impl<H> ManagerModel<H> {
    /// A manager without subscriptions.
    pub open spec fn initial() -> ManagerModel<H> {
        ManagerModel { subscriptions: Seq::empty() }
    }

    /// What holds of every manager: no client is subscribed twice, and no
    /// receiver feeds two subscriptions.
    pub open spec fn wf(self) -> bool {
        forall|i: int, j: int|
            0 <= i < self.subscriptions.len() && 0 <= j < self.subscriptions.len() && i != j
                ==> self.subscriptions[i].client != self.subscriptions[j].client
                && self.subscriptions[i].receiver != self.subscriptions[j].receiver
    }

    /// Whether every subscription is fed by a receiver that `bus` has given
    /// out. This holds of a manager and the bus that it has always been
    /// used with.
    pub open spec fn fed_by(self, bus: BusModel) -> bool {
        forall|i: int|
            0 <= i < self.subscriptions.len() ==> (#[trigger] self.subscriptions[i]).receiver
                < bus.next_id
    }

    /// Whether `client` is subscribed.
    pub open spec fn subscribed(self, client: Seq<char>) -> bool {
        exists|i: int|
            0 <= i < self.subscriptions.len() && self.subscriptions[i].client == client
    }

    /// The place of the subscription of `client`, if it is subscribed.
    pub open spec fn position(self, client: Seq<char>) -> int {
        choose|i: int| 0 <= i < self.subscriptions.len() && self.subscriptions[i].client == client
    }

    /// The subscription of `client`, if it is subscribed.
    pub open spec fn lookup(self, client: Seq<char>) -> Option<SubscriptionModel<H>> {
        if self.subscribed(client) {
            Some(self.subscriptions[self.position(client)])
        } else {
            None
        }
    }

    /// The manager without the subscription of `client`.
    pub open spec fn without(self, client: Seq<char>) -> ManagerModel<H> {
        if self.subscribed(client) {
            ManagerModel { subscriptions: self.subscriptions.remove(self.position(client)) }
        } else {
            self
        }
    }

    /// The bus without the receiver of `client`.
    pub open spec fn released(self, bus: BusModel, client: Seq<char>) -> BusModel {
        match self.lookup(client) {
            Some(subscription) => bus.unsubscribe(subscription.receiver),
            None => bus,
        }
    }

    /// The manager after `client` asked to connect with `task`. On a bus
    /// that takes no receiver nothing changes. Otherwise the client has one
    /// subscription, the new one, fed by the receiver that the bus gives
    /// out next.
    pub open spec fn connect(self, bus: BusModel, client: Seq<char>, task: H) -> ManagerModel<H> {
        if bus.open_for_subscription() {
            ManagerModel {
                subscriptions: self.without(client).subscriptions.push(
                    SubscriptionModel { client, receiver: bus.next_id as u64, task },
                ),
            }
        } else {
            self
        }
    }

    /// The bus after `client` asked to connect: the receiver of its earlier
    /// subscription is gone, and a new receiver with an empty backlog is
    /// there.
    pub open spec fn bus_after_connect(self, bus: BusModel, client: Seq<char>) -> BusModel {
        if bus.open_for_subscription() {
            self.released(bus, client).subscribe()
        } else {
            bus
        }
    }

    /// The answer to `client` asking to connect with `task`.
    pub open spec fn connection(self, bus: BusModel, client: Seq<char>, task: H) -> Connection<H> {
        if bus.open_for_subscription() {
            Connection::Accepted {
                receiver: bus.next_id as u64,
                replaced: match self.lookup(client) {
                    Some(subscription) => Some(subscription.task),
                    None => None,
                },
            }
        } else {
            Connection::Rejected { task }
        }
    }

    /// The task to cancel when `client` disconnects: that of its
    /// subscription, if it has one.
    pub open spec fn cancelled(self, client: Seq<char>) -> Option<H> {
        match self.lookup(client) {
            Some(subscription) => Some(subscription.task),
            None => None,
        }
    }

    /// The tasks of all subscriptions, oldest subscription first.
    pub open spec fn tasks(self) -> Seq<H> {
        self.subscriptions.map_values(|s: SubscriptionModel<H>| s.task)
    }

    /// The bus without the receivers of the first `count` subscriptions.
    pub open spec fn released_upto(self, bus: BusModel, count: nat) -> BusModel
        decreases count,
    {
        if count == 0 {
            bus
        } else {
            self.released_upto(bus, (count - 1) as nat).unsubscribe(
                self.subscriptions[count - 1].receiver,
            )
        }
    }

    /// The bus without the receivers of all subscriptions.
    pub open spec fn released_all(self, bus: BusModel) -> BusModel {
        self.released_upto(bus, self.subscriptions.len())
    }
}

/// One subscription.
struct Subscription<H> {
    client_id: String,
    receiver: u64,
    task: H,
}

impl<H> View for Subscription<H> {
    type V = SubscriptionModel<H>;

    closed spec fn view(&self) -> SubscriptionModel<H> {
        SubscriptionModel { client: self.client_id@, receiver: self.receiver, task: self.task }
    }
}

/// The map from clients to their delivery tasks.
pub struct SubscriptionManager<H> {
    entries: Vec<Subscription<H>>,
}

impl<H> View for SubscriptionManager<H> {
    type V = ManagerModel<H>;

    closed spec fn view(&self) -> ManagerModel<H> {
        ManagerModel { subscriptions: self.entries@.map_values(|s: Subscription<H>| s@) }
    }
}

impl<H> SubscriptionManager<H> {
    /// Whether the manager is in a state that its own operations lead to.
    pub open spec fn wf(&self) -> bool {
        self@.wf()
    }

    /// A manager without subscriptions.
    pub fn new() -> (manager: SubscriptionManager<H>)
        ensures
            manager.wf(),
            manager@ == ManagerModel::<H>::initial(),
    {
        let manager = SubscriptionManager { entries: Vec::new() };
        assert(manager@.subscriptions =~= Seq::empty());
        manager
    }

    /// The place of the subscription of `client`, if it is subscribed.
    fn find(&self, client: &String) -> (at: Option<usize>)
        requires
            self.wf(),
        ensures
            at is Some <==> self@.subscribed(client@),
            at matches Some(i) ==> i < self.entries.len() && i as int == self@.position(client@)
                && self.entries[i as int]@ == self@.subscriptions[i as int],
    {
        let mut i: usize = 0;
        while i < self.entries.len()
            invariant
                self.wf(),
                i <= self.entries.len(),
                forall|j: int| 0 <= j < i ==> self@.subscriptions[j].client != client@,
            decreases self.entries.len() - i,
        {
            if self.entries[i].client_id == *client {
                assert(self@.subscriptions[i as int].client == client@);
                return Some(i);
            }
            i = i + 1;
        }
        None
    }

    /// Whether `client_id` is subscribed.
    pub fn is_subscribed(&self, client_id: &str) -> (subscribed: bool)
        requires
            self.wf(),
        ensures
            subscribed == self@.subscribed(client_id@),
    {
        let client = String::from_str(client_id);
        self.find(&client).is_some()
    }

    /// The receiver that feeds `client_id`, if it is subscribed.
    pub fn receiver_of(&self, client_id: &str) -> (receiver: Option<u64>)
        requires
            self.wf(),
        ensures
            receiver == match self@.lookup(client_id@) {
                Some(subscription) => Some(subscription.receiver),
                None => None,
            },
    {
        let client = String::from_str(client_id);
        match self.find(&client) {
            Some(at) => Some(self.entries[at].receiver),
            None => None,
        }
    }

    /// The number of subscriptions.
    pub fn len(&self) -> (count: usize)
        ensures
            count as nat == self@.subscriptions.len(),
    {
        self.entries.len()
    }

    /// Subscribes `client_id`, with `task` as the task that delivers to it.
    /// An earlier subscription of the same client ends first: its receiver
    /// leaves the bus, and its task is handed back for cancellation.
    pub fn on_connect(&mut self, bus: &mut EventBus, client_id: &str, task: H) -> (outcome:
        Connection<H>)
        requires
            old(self).wf(),
            old(bus).wf(),
            old(self)@.fed_by(old(bus)@),
        ensures
            final(self).wf(),
            final(bus).wf(),
            final(self)@.fed_by(final(bus)@),
            final(self)@ == old(self)@.connect(old(bus)@, client_id@, task),
            final(bus)@ == old(self)@.bus_after_connect(old(bus)@, client_id@),
            outcome == old(self)@.connection(old(bus)@, client_id@, task),
    {
        if !bus.accepts_subscribers() {
            return Connection::Rejected { task };
        }
        let client = String::from_str(client_id);
        let replaced = match self.find(&client) {
            Some(at) => {
                let earlier = self.entries.remove(at);
                assert(self@.subscriptions =~= old(self)@.subscriptions.remove(at as int));
                let _ = bus.unsubscribe(earlier.receiver);
                Some(earlier.task)
            },
            None => None,
        };
        assert(self@ == old(self)@.without(client_id@));
        assert(bus@ == old(self)@.released(old(bus)@, client_id@));
        assert forall|j: int| 0 <= j < self@.subscriptions.len() implies self@.subscriptions[j].client
            != client_id@ && self@.subscriptions[j].receiver < old(bus)@.next_id by {
            if old(self)@.subscribed(client_id@) {
                let at = old(self)@.position(client_id@);
                let k = if j < at {
                    j
                } else {
                    j + 1
                };
                assert(self@.subscriptions[j] == old(self)@.subscriptions[k]);
            } else {
                assert(self@.subscriptions[j] == old(self)@.subscriptions[j]);
            }
        }
        let ghost middle = self@;
        match bus.subscribe() {
            Some(receiver) => {
                self.entries.push(Subscription { client_id: client, receiver, task });
                assert(self@.subscriptions =~= middle.subscriptions.push(
                    SubscriptionModel { client: client_id@, receiver, task },
                ));
                Connection::Accepted { receiver, replaced }
            },
            None => {
                assert(false);
                Connection::Rejected { task }
            },
        }
    }

    /// Ends the subscription of `client_id`, if it has one: its receiver
    /// leaves the bus, and its task is handed back for cancellation.
    pub fn on_disconnect(&mut self, bus: &mut EventBus, client_id: &str) -> (task: Option<H>)
        requires
            old(self).wf(),
            old(bus).wf(),
        ensures
            final(self).wf(),
            final(bus).wf(),
            final(self)@ == old(self)@.without(client_id@),
            final(bus)@ == old(self)@.released(old(bus)@, client_id@),
            task == old(self)@.cancelled(client_id@),
    {
        let client = String::from_str(client_id);
        match self.find(&client) {
            Some(at) => {
                let earlier = self.entries.remove(at);
                assert(self@.subscriptions =~= old(self)@.subscriptions.remove(at as int));
                let _ = bus.unsubscribe(earlier.receiver);
                Some(earlier.task)
            },
            None => None,
        }
    }

    /// Ends every subscription: all receivers leave the bus, and all tasks
    /// are handed back for cancellation, that of the oldest subscription
    /// first.
    pub fn shutdown(&mut self, bus: &mut EventBus) -> (tasks: Vec<H>)
        requires
            old(self).wf(),
            old(bus).wf(),
        ensures
            final(self).wf(),
            final(bus).wf(),
            final(self)@ == ManagerModel::<H>::initial(),
            final(bus)@ == old(self)@.released_all(old(bus)@),
            tasks@ == old(self)@.tasks(),
    {
        let mut tasks: Vec<H> = Vec::new();
        let ghost all = self@;
        let total = self.entries.len();
        let mut done: usize = 0;
        assert(self@.subscriptions =~= all.subscriptions.skip(0));
        while done < total
            invariant
                bus.wf(),
                done <= total,
                total == all.subscriptions.len(),
                self.entries.len() == total - done,
                self@.subscriptions == all.subscriptions.skip(done as int),
                tasks.len() == done,
                forall|k: int| 0 <= k < done ==> #[trigger] tasks[k] == all.subscriptions[k].task,
                bus@ == all.released_upto(old(bus)@, done as nat),
            decreases total - done,
        {
            let ghost before = self@;
            let entry = self.entries.remove(0);
            assert(entry@ == before.subscriptions[0]);
            assert(self@.subscriptions =~= before.subscriptions.remove(0));
            assert(before.subscriptions.remove(0) =~= all.subscriptions.skip(done + 1));
            let _ = bus.unsubscribe(entry.receiver);
            tasks.push(entry.task);
            done = done + 1;
        }
        assert(self@.subscriptions =~= Seq::empty());
        assert(tasks@ =~= all.tasks());
        tasks
    }
}

} // verus!
