//! The provider: the one owner of the display controller, the event bus and
//! the subscription manager, and the surface through which callers reach
//! them.

use crate::bus::{BusError, BusOp, Script, ScriptModel, WriteOutcome};
use crate::delivery::{next_delivery, step_for, DeliveryStep};
use crate::display::{
    CommandModel, ControllerModel, DisplayCommand, DisplayController, SubmitError,
};
use crate::backend::{bus_after_read, read_step, reader_step, ReadOutcome, ReaderStep};
use crate::event_bus::{BusModel, EventBus};
use crate::input::{bus_after_poll, poll_step, poller_step, PollOutcome, PollerStep};
use crate::lifecycle::lemma_without_fed_by;
use crate::subscription::{Connection, ManagerModel, SubscriptionManager};
use vstd::prelude::*;
use vstd::string::StringExecFns;

verus! {

/// The usual room for waiting display commands.
pub const QUEUE_CAPACITY: usize = 1000;

/// The usual room for waiting events of one subscriber.
pub const EVENT_BACKLOG: usize = 1000;

/// The mathematical value of a [`Provider`].
pub struct ProviderModel<H> {
    pub display: ControllerModel,
    pub events: BusModel,
    pub subscribers: ManagerModel<H>,
}

impl<H> ProviderModel<H> {
    /// A provider whose device has not been brought up and that has no
    /// subscribers.
    pub open spec fn initial(queue_capacity: nat, backlog_capacity: nat) -> ProviderModel<H> {
        ProviderModel {
            display: ControllerModel::initial(queue_capacity),
            events: BusModel::initial(backlog_capacity),
            subscribers: ManagerModel::initial(),
        }
    }

    /// What holds of every provider: its parts are well formed, and every
    /// subscription is fed by a receiver of its own bus.
    pub open spec fn wf(self) -> bool {
        &&& self.display.wf()
        &&& self.events.wf()
        &&& self.subscribers.wf()
        &&& self.subscribers.fed_by(self.events)
    }
}

/// The owner of the display, the event bus and the subscriptions.
pub struct Provider<H> {
    display: DisplayController,
    events: EventBus,
    subscribers: SubscriptionManager<H>,
}

impl<H> View for Provider<H> {
    type V = ProviderModel<H>;

    closed spec fn view(&self) -> ProviderModel<H> {
        ProviderModel {
            display: self.display@,
            events: self.events@,
            subscribers: self.subscribers@,
        }
    }
}

impl<H> Provider<H> {
    /// Whether the provider is in a state that its own operations lead to.
    pub closed spec fn wf(&self) -> bool {
        &&& self.display.wf()
        &&& self.events.wf()
        &&& self.subscribers.wf()
        &&& self@.wf()
    }

    /// The value of a provider in such a state is well formed.
    pub proof fn lemma_wf(&self)
        requires
            self.wf(),
        ensures
            self@.wf(),
    {
    }

    /// A provider with room for `queue_capacity` waiting display commands
    /// and `backlog_capacity` waiting events for each subscriber.
    pub fn new(queue_capacity: usize, backlog_capacity: usize) -> (provider: Provider<H>)
        ensures
            provider.wf(),
            provider@ == ProviderModel::<H>::initial(
                queue_capacity as nat,
                backlog_capacity as nat,
            ),
    {
        Provider {
            display: DisplayController::new(queue_capacity),
            events: EventBus::new(backlog_capacity),
            subscribers: SubscriptionManager::new(),
        }
    }

    /// Whether the display has been brought up.
    pub fn is_ready(&self) -> (ready: bool)
        ensures
            ready == self@.display.ready(),
    {
        self.display.is_ready()
    }

    /// The step of the bring-up that is due, if any.
    pub fn next_bring_up_step(&self) -> (op: Option<&BusOp>)
        ensures
            op is Some <==> self@.display.bring_up.current() is Some,
            op matches Some(op) ==> Some(op@) == self@.display.bring_up.current(),
    {
        self.display.next_step()
    }

    /// Takes the outcome of the bring-up step that was due.
    pub fn report_bring_up(&mut self, outcome: WriteOutcome) -> (verdict: Result<(), BusError>)
        requires
            old(self).wf(),
        ensures
            final(self).wf(),
            verdict == old(self)@.display.bring_up.verdict(outcome),
            final(self)@ == (ProviderModel {
                display: old(self)@.display.report(outcome),
                ..old(self)@
            }),
    {
        self.display.report(outcome)
    }

    /// Asks for `text` to be shown: the panel is wiped and the text drawn
    /// from its top left corner. Returns once the command waits in the
    /// queue, or says why it does not.
    pub fn draw_message(&mut self, text: &str) -> (verdict: Result<(), SubmitError>)
        requires
            old(self).wf(),
        ensures
            final(self).wf(),
            verdict == old(self)@.display.admits(CommandModel::Text(text@)),
            final(self)@ == (ProviderModel {
                display: old(self)@.display.submit(CommandModel::Text(text@)),
                ..old(self)@
            }),
    {
        self.display.submit(DisplayCommand::Text(String::from_str(text)))
    }

    /// Asks for the panel to be wiped. Returns once the command waits in
    /// the queue, or says why it does not.
    pub fn clear(&mut self) -> (verdict: Result<(), SubmitError>)
        requires
            old(self).wf(),
        ensures
            final(self).wf(),
            verdict == old(self)@.display.admits(CommandModel::Clear),
            final(self)@ == (ProviderModel {
                display: old(self)@.display.submit(CommandModel::Clear),
                ..old(self)@
            }),
    {
        self.display.submit(DisplayCommand::Clear)
    }

    /// Renders the oldest waiting display command and hands out the push
    /// of its frame, if a command waits and no push is under way.
    pub fn render_next(&mut self) -> (push: Option<Script>)
        requires
            old(self).wf(),
        ensures
            final(self).wf(),
            final(self)@ == (ProviderModel { display: old(self)@.display.render(), ..old(self)@ }),
            push is Some <==> old(self)@.display.render_ops() is Some,
            push matches Some(script) ==> script@ == (ScriptModel {
                ops: old(self)@.display.render_ops()->Some_0,
                done: 0,
                aborted: false,
            }),
    {
        self.display.render_next()
    }

    /// Finishes the push that was handed out and says whether all of it
    /// reached the device.
    pub fn finish_push(&mut self, push: &Script) -> (complete: bool)
        requires
            old(self).wf(),
        ensures
            final(self).wf(),
            final(self)@ == (ProviderModel { display: old(self)@.display.finish(), ..old(self)@ }),
            complete == push@.complete(),
    {
        self.display.finish_push(push)
    }

    /// Subscribes `client_id`, with `task` as the task that delivers to it.
    pub fn subscribe(&mut self, client_id: &str, task: H) -> (outcome: Connection<H>)
        requires
            old(self).wf(),
        ensures
            final(self).wf(),
            outcome == old(self)@.subscribers.connection(old(self)@.events, client_id@, task),
            final(self)@ == (ProviderModel {
                events: old(self)@.subscribers.bus_after_connect(old(self)@.events, client_id@),
                subscribers: old(self)@.subscribers.connect(old(self)@.events, client_id@, task),
                ..old(self)@
            }),
    {
        self.subscribers.on_connect(&mut self.events, client_id, task)
    }

    /// Ends the subscription of `client_id` and hands back its task for
    /// cancellation, if it was subscribed.
    pub fn unsubscribe(&mut self, client_id: &str) -> (task: Option<H>)
        requires
            old(self).wf(),
        ensures
            final(self).wf(),
            task == old(self)@.subscribers.cancelled(client_id@),
            final(self)@ == (ProviderModel {
                events: old(self)@.subscribers.released(old(self)@.events, client_id@),
                subscribers: old(self)@.subscribers.without(client_id@),
                ..old(self)@
            }),
    {
        let task = self.subscribers.on_disconnect(&mut self.events, client_id);
        proof {
            lemma_without_fed_by(old(self)@.subscribers, old(self)@.events, client_id@);
        }
        task
    }

    /// Ends every subscription and closes the event bus. The tasks of all
    /// subscriptions are handed back for cancellation, that of the oldest
    /// subscription first.
    pub fn shutdown(&mut self) -> (tasks: Vec<H>)
        requires
            old(self).wf(),
        ensures
            final(self).wf(),
            tasks@ == old(self)@.subscribers.tasks(),
            final(self)@ == (ProviderModel {
                events: old(self)@.subscribers.released_all(old(self)@.events).close(),
                subscribers: ManagerModel::initial(),
                ..old(self)@
            }),
    {
        let tasks = self.subscribers.shutdown(&mut self.events);
        self.events.close();
        tasks
    }

    /// Whether `client_id` is subscribed.
    pub fn is_subscribed(&self, client_id: &str) -> (subscribed: bool)
        requires
            self.wf(),
        ensures
            subscribed == self@.subscribers.subscribed(client_id@),
    {
        self.subscribers.is_subscribed(client_id)
    }

    /// Deals with the outcome of a wait on the input lines.
    pub fn poll(&mut self, outcome: PollOutcome) -> (step: PollerStep)
        requires
            old(self).wf(),
        ensures
            final(self).wf(),
            step == poller_step(old(self)@.events, outcome),
            final(self)@ == (ProviderModel {
                events: bus_after_poll(old(self)@.events, outcome),
                ..old(self)@
            }),
    {
        poll_step(&mut self.events, outcome)
    }

    /// Deals with what was read from the line-oriented stand-in for the
    /// device.
    pub fn read(&mut self, read: ReadOutcome<'_>) -> (step: ReaderStep)
        requires
            old(self).wf(),
        ensures
            final(self).wf(),
            step == reader_step(old(self)@.events, read@),
            final(self)@ == (ProviderModel {
                events: bus_after_read(old(self)@.events, read@),
                ..old(self)@
            }),
    {
        read_step(&mut self.events, read)
    }

    /// Asks `receiver` for its next event and decides the next step of its
    /// delivery task.
    pub fn next_delivery(&mut self, receiver: u64) -> (step: DeliveryStep)
        requires
            old(self).wf(),
        ensures
            final(self).wf(),
            step == step_for(old(self)@.events.next_for(receiver)),
            final(self)@ == (ProviderModel {
                events: old(self)@.events.receive(receiver),
                ..old(self)@
            }),
    {
        next_delivery(&mut self.events, receiver)
    }
}

} // verus!
