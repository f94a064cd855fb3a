//! The event bus: every published event goes to every receiver that is
//! subscribed at that moment.
//!
//! Each receiver has a backlog of its own, bounded by the capacity of the
//! bus. Publishing never waits for a receiver: a backlog that is full loses
//! its oldest event to make room for the new one. A receiver sees nothing
//! that was published before it subscribed.

use crate::event::WrappedEvent;
use vstd::prelude::*;

verus! {

/// The newest `capacity` events of a backlog, in their order.
pub open spec fn window(backlog: Seq<WrappedEvent>, capacity: nat) -> Seq<WrappedEvent> {
    if backlog.len() <= capacity {
        backlog
    } else {
        backlog.skip(backlog.len() - capacity)
    }
}

/// What a receiver gets when it asks for its next event.
#[derive(Debug, Clone, Copy, PartialEq, Eq, Structural)]
pub enum Received {
    /// The oldest event of the backlog, which it leaves.
    Event(WrappedEvent),
    /// The backlog is empty; more may come.
    Empty,
    /// The backlog is empty and the bus is closed: nothing will come.
    Closed,
    /// The receiver is not subscribed.
    Gone,
}

/// The error of publishing on a closed bus.
#[derive(Debug, Clone, Copy, PartialEq, Eq, Structural)]
pub struct BusClosed;

/// The mathematical value of an [`EventBus`].
pub struct BusModel {
    /// The most events that a backlog holds.
    pub capacity: nat,
    /// The number that the next receiver gets. Numbers are never reused.
    pub next_id: nat,
    /// Whether the publishing side is gone.
    pub closed: bool,
    /// The backlog of each subscribed receiver, oldest event first.
    pub pending: Map<u64, Seq<WrappedEvent>>,
}

impl BusModel {
    /// A bus without receivers.
    pub open spec fn initial(capacity: nat) -> BusModel {
        BusModel { capacity, next_id: 0, closed: false, pending: Map::empty() }
    }

    /// What holds of every bus: receivers have numbers that were already
    /// given out, and no backlog exceeds the capacity.
    pub open spec fn wf(self) -> bool {
        &&& self.next_id <= u64::MAX
        &&& forall|id: u64| #[trigger]
            self.pending.dom().contains(id) ==> id < self.next_id && self.pending[id].len()
                <= self.capacity
    }

    /// Whether `id` is subscribed.
    pub open spec fn subscribed(self, id: u64) -> bool {
        self.pending.dom().contains(id)
    }

    /// Whether a new receiver can be added: the bus is open and has a number
    /// left to give.
    pub open spec fn open_for_subscription(self) -> bool {
        !self.closed && self.next_id < u64::MAX
    }

    /// The bus after a receiver was added, with an empty backlog.
    pub open spec fn subscribe(self) -> BusModel {
        if self.open_for_subscription() {
            BusModel {
                next_id: self.next_id + 1,
                pending: self.pending.insert(self.next_id as u64, Seq::empty()),
                ..self
            }
        } else {
            self
        }
    }

    /// The bus after receiver `id` was removed.
    pub open spec fn unsubscribe(self, id: u64) -> BusModel {
        BusModel { pending: self.pending.remove(id), ..self }
    }

    /// The bus after `event` was published: it is the newest event of every
    /// backlog, and a backlog that was full has lost its oldest event.
    pub open spec fn publish(self, event: WrappedEvent) -> BusModel {
        if self.closed {
            self
        } else {
            BusModel {
                pending: Map::new(
                    |id: u64| self.pending.dom().contains(id),
                    |id: u64| window(self.pending[id].push(event), self.capacity),
                ),
                ..self
            }
        }
    }

    /// What receiver `id` gets when it asks for its next event.
    pub open spec fn next_for(self, id: u64) -> Received {
        if !self.subscribed(id) {
            Received::Gone
        } else if self.pending[id].len() > 0 {
            Received::Event(self.pending[id][0])
        } else if self.closed {
            Received::Closed
        } else {
            Received::Empty
        }
    }

    /// The bus after receiver `id` asked for its next event.
    pub open spec fn receive(self, id: u64) -> BusModel {
        if self.subscribed(id) && self.pending[id].len() > 0 {
            BusModel { pending: self.pending.insert(id, self.pending[id].drop_first()), ..self }
        } else {
            self
        }
    }

    /// The bus after its publishing side went away.
    pub open spec fn close(self) -> BusModel {
        BusModel { closed: true, ..self }
    }
}

/// One subscribed receiver.
struct Receiver {
    id: u64,
    backlog: Vec<WrappedEvent>,
}

/// The position of receiver `id` among `receivers`, if it is there.
spec fn position_of(receivers: Seq<Receiver>, id: u64) -> int {
    choose|i: int| 0 <= i < receivers.len() && receivers[i].id == id
}

/// Whether receiver `id` is among `receivers`.
spec fn present(receivers: Seq<Receiver>, id: u64) -> bool {
    exists|i: int| 0 <= i < receivers.len() && receivers[i].id == id
}

/// The backlogs of `receivers` by their numbers.
spec fn backlogs(receivers: Seq<Receiver>) -> Map<u64, Seq<WrappedEvent>> {
    Map::new(
        |id: u64| present(receivers, id),
        |id: u64| receivers[position_of(receivers, id)].backlog@,
    )
}

/// No two of `receivers` have the same number.
spec fn distinct(receivers: Seq<Receiver>) -> bool {
    forall|i: int, j: int|
        0 <= i < receivers.len() && 0 <= j < receivers.len() && i != j ==> receivers[i].id
            != receivers[j].id
}

/// With distinct numbers, a receiver is found at its own position.
proof fn lemma_position(receivers: Seq<Receiver>, i: int)
    requires
        distinct(receivers),
        0 <= i < receivers.len(),
    ensures
        present(receivers, receivers[i].id),
        position_of(receivers, receivers[i].id) == i,
        backlogs(receivers)[receivers[i].id] == receivers[i].backlog@,
{
}

/// A receiver that is present has a position.
proof fn lemma_present(receivers: Seq<Receiver>, id: u64)
    requires
        present(receivers, id),
    ensures
        0 <= position_of(receivers, id) < receivers.len(),
        receivers[position_of(receivers, id)].id == id,
{
}

/// Receivers that keep their numbers and their places are found where they
/// were.
proof fn lemma_same_places(before: Seq<Receiver>, after: Seq<Receiver>)
    requires
        distinct(before),
        before.len() == after.len(),
        forall|j: int| 0 <= j < before.len() ==> (#[trigger] after[j]).id == before[j].id,
    ensures
        distinct(after),
        forall|id: u64| present(after, id) == present(before, id),
        forall|id: u64|
            present(before, id) ==> 0 <= position_of(before, id) < before.len()
                && #[trigger] backlogs(after)[id] == after[position_of(before, id)].backlog@,
{
    assert forall|a: int, b: int|
        0 <= a < after.len() && 0 <= b < after.len() && a != b implies after[a].id
        != after[b].id by {
        assert(after[a].id == before[a].id);
        assert(after[b].id == before[b].id);
    }
    assert forall|id: u64| present(after, id) == present(before, id) by {
        if present(before, id) {
            lemma_present(before, id);
            assert(after[position_of(before, id)].id == id);
        }
        if present(after, id) {
            lemma_present(after, id);
            assert(before[position_of(after, id)].id == id);
        }
    }
    assert forall|id: u64| present(before, id) implies 0 <= position_of(before, id)
        < before.len() && #[trigger] backlogs(after)[id] == after[position_of(
        before,
        id,
    )].backlog@ by {
        lemma_present(before, id);
        let at = position_of(before, id);
        assert(after[at].id == id);
        lemma_position(after, at);
    }
}

/// A receiver with a new number, put behind the others, is present with
/// its own backlog; the others are present as before.
proof fn lemma_added(before: Seq<Receiver>, after: Seq<Receiver>)
    requires
        distinct(before),
        after.len() == before.len() + 1,
        after.drop_last() == before,
        !present(before, after.last().id),
    ensures
        distinct(after),
        forall|id: u64| present(after, id) == (present(before, id) || id == after.last().id),
        forall|id: u64| present(before, id) ==> #[trigger] backlogs(after)[id] == backlogs(before)[id],
        backlogs(after)[after.last().id] == after.last().backlog@,
{
    assert forall|j: int| 0 <= j < before.len() implies after[j] == before[j] by {
        assert(after.drop_last()[j] == after[j]);
    }
    assert forall|a: int, b: int|
        0 <= a < after.len() && 0 <= b < after.len() && a != b implies after[a].id
        != after[b].id by {
        if a == before.len() {
            assert(before[b].id == after[b].id);
        } else if b == before.len() {
            assert(before[a].id == after[a].id);
        }
    }
    assert forall|id: u64| present(after, id) == (present(before, id) || id
        == after.last().id) by {
        if present(before, id) {
            lemma_present(before, id);
            assert(after[position_of(before, id)].id == id);
        }
        if id == after.last().id {
            assert(after[after.len() - 1].id == id);
        }
        if present(after, id) && id != after.last().id {
            lemma_present(after, id);
            assert(before[position_of(after, id)].id == id);
        }
    }
    assert forall|id: u64| present(before, id) implies #[trigger] backlogs(after)[id]
        == backlogs(before)[id] by {
        lemma_present(before, id);
        lemma_position(before, position_of(before, id));
        lemma_position(after, position_of(before, id));
    }
    lemma_position(after, after.len() - 1);
}

/// Once the receiver at place `at` is taken out, it is absent, and the
/// others are present as before.
proof fn lemma_removed(before: Seq<Receiver>, at: int)
    requires
        distinct(before),
        0 <= at < before.len(),
    ensures
        distinct(before.remove(at)),
        forall|id: u64|
            present(before.remove(at), id) == (present(before, id) && id != before[at].id),
        forall|id: u64|
            present(before.remove(at), id) ==> #[trigger] backlogs(before.remove(at))[id]
                == backlogs(before)[id],
{
    let after = before.remove(at);
    let origin = |j: int| if j < at { j } else { j + 1 };
    assert forall|j: int| 0 <= j < after.len() implies after[j] == before[origin(j)] by {}
    assert forall|a: int, b: int|
        0 <= a < after.len() && 0 <= b < after.len() && a != b implies after[a].id
        != after[b].id by {
        assert(after[a] == before[origin(a)]);
        assert(after[b] == before[origin(b)]);
    }
    assert forall|id: u64| present(after, id) == (present(before, id) && id
        != before[at].id) by {
        if present(before, id) && id != before[at].id {
            lemma_present(before, id);
            let i = position_of(before, id);
            let moved = if i < at { i } else { i - 1 };
            assert(after[moved].id == id);
        }
        if present(after, id) {
            lemma_present(after, id);
            assert(before[origin(position_of(after, id))].id == id);
        }
    }
    assert forall|id: u64| present(after, id) implies #[trigger] backlogs(after)[id]
        == backlogs(before)[id] by {
        lemma_present(after, id);
        let i = position_of(after, id);
        lemma_position(after, i);
        lemma_position(before, origin(i));
    }
}

/// The broadcast primitive between the input poller and the delivery tasks.
pub struct EventBus {
    capacity: usize,
    next_id: u64,
    closed: bool,
    receivers: Vec<Receiver>,
}

impl View for EventBus {
    type V = BusModel;

    closed spec fn view(&self) -> BusModel {
        BusModel {
            capacity: self.capacity as nat,
            next_id: self.next_id as nat,
            closed: self.closed,
            pending: backlogs(self.receivers@),
        }
    }
}

impl EventBus {
    /// What the representation keeps beyond the value.
    pub closed spec fn inv(&self) -> bool {
        &&& distinct(self.receivers@)
        &&& forall|i: int|
            0 <= i < self.receivers.len() ==> (#[trigger] self.receivers[i]).id < self.next_id
                && self.receivers[i].backlog.len() <= self.capacity
    }

    /// Whether the bus is in a state that its own operations lead to.
    pub open spec fn wf(&self) -> bool {
        self.inv() && self@.wf()
    }

    /// A bus without receivers, whose backlogs will hold up to `capacity`
    /// events each.
    pub fn new(capacity: usize) -> (bus: EventBus)
        ensures
            bus.wf(),
            bus@ == BusModel::initial(capacity as nat),
    {
        let bus = EventBus { capacity, next_id: 0, closed: false, receivers: Vec::new() };
        assert(bus@.pending =~= Map::empty());
        bus
    }

    /// The position of receiver `id`, if it is subscribed.
    fn position(&self, id: u64) -> (at: Option<usize>)
        requires
            self.wf(),
        ensures
            at is Some <==> self@.subscribed(id),
            at matches Some(i) ==> i < self.receivers.len() && self.receivers[i as int].id == id
                && self@.pending[id] == self.receivers[i as int].backlog@,
    {
        let mut i: usize = 0;
        while i < self.receivers.len()
            invariant
                self.wf(),
                i <= self.receivers.len(),
                forall|j: int| 0 <= j < i ==> self.receivers[j].id != id,
            decreases self.receivers.len() - i,
        {
            if self.receivers[i].id == id {
                proof {
                    lemma_position(self.receivers@, i as int);
                }
                return Some(i);
            }
            i = i + 1;
        }
        None
    }

    /// Whether receiver `id` is subscribed.
    pub fn is_subscribed(&self, id: u64) -> (subscribed: bool)
        requires
            self.wf(),
        ensures
            subscribed == self@.subscribed(id),
    {
        self.position(id).is_some()
    }

    /// Whether the publishing side is gone.
    pub fn is_closed(&self) -> (closed: bool)
        ensures
            closed == self@.closed,
    {
        self.closed
    }

    /// Whether a receiver can be added: the bus is open and has a number
    /// left to give.
    pub fn accepts_subscribers(&self) -> (open: bool)
        ensures
            open == self@.open_for_subscription(),
    {
        !self.closed && self.next_id < u64::MAX
    }

    /// The most events that a backlog holds.
    pub fn capacity(&self) -> (capacity: usize)
        ensures
            capacity as nat == self@.capacity,
    {
        self.capacity
    }

    /// The number of events that wait for receiver `id`, if it is
    /// subscribed.
    pub fn backlog(&self, id: u64) -> (count: Option<usize>)
        requires
            self.wf(),
        ensures
            count is Some <==> self@.subscribed(id),
            count matches Some(n) ==> n as nat == self@.pending[id].len(),
    {
        match self.position(id) {
            Some(i) => Some(self.receivers[i].backlog.len()),
            None => None,
        }
    }

    /// Adds a receiver and hands out its number. The receiver starts with an
    /// empty backlog: it sees only what is published from now on. No
    /// receiver is added to a closed bus, nor once the numbers have run
    /// out.
    pub fn subscribe(&mut self) -> (id: Option<u64>)
        requires
            old(self).wf(),
        ensures
            final(self).wf(),
            final(self)@ == old(self)@.subscribe(),
            id is Some <==> old(self)@.open_for_subscription(),
            id matches Some(id) ==> id as nat == old(self)@.next_id,
    {
        if self.closed || self.next_id == u64::MAX {
            return None;
        }
        let id = self.next_id;
        self.receivers.push(Receiver { id, backlog: Vec::new() });
        self.next_id = id + 1;
        proof {
            assert(self.receivers@.drop_last() =~= old(self).receivers@);
            assert(!present(old(self).receivers@, id));
            lemma_added(old(self).receivers@, self.receivers@);
            assert(self@.pending =~= old(self)@.pending.insert(id, Seq::empty()));
        }
        Some(id)
    }

    /// Removes receiver `id` with its backlog. Says whether it was
    /// subscribed.
    pub fn unsubscribe(&mut self, id: u64) -> (removed: bool)
        requires
            old(self).wf(),
        ensures
            final(self).wf(),
            final(self)@ == old(self)@.unsubscribe(id),
            removed == old(self)@.subscribed(id),
    {
        match self.position(id) {
            Some(at) => {
                let _ = self.receivers.remove(at);
                proof {
                    assert(self.receivers@ =~= old(self).receivers@.remove(at as int));
                    lemma_removed(old(self).receivers@, at as int);
                    assert(self@.pending =~= old(self)@.pending.remove(id));
                }
                true
            },
            None => {
                assert(self@.pending =~= old(self)@.pending.remove(id));
                false
            },
        }
    }

    /// Publishes an event to every subscribed receiver. It never waits: a
    /// full backlog loses its oldest event. On a closed bus nothing is
    /// published.
    pub fn publish(&mut self, event: WrappedEvent) -> (sent: Result<(), BusClosed>)
        requires
            old(self).wf(),
        ensures
            final(self).wf(),
            final(self)@ == old(self)@.publish(event),
            sent is Err <==> old(self)@.closed,
    {
        if self.closed {
            return Err(BusClosed);
        }
        let count = self.receivers.len();
        let mut i: usize = 0;
        while i < count
            invariant
                i <= count,
                count == self.receivers.len(),
                count == old(self).receivers.len(),
                self.capacity == old(self).capacity,
                self.next_id == old(self).next_id,
                self.closed == old(self).closed,
                old(self).inv(),
                forall|j: int|
                    0 <= j < count ==> (#[trigger] self.receivers[j]).id == old(
                        self,
                    ).receivers[j].id,
                forall|j: int|
                    0 <= j < i ==> (#[trigger] self.receivers[j]).backlog@ == window(
                        old(self).receivers[j].backlog@.push(event),
                        self.capacity as nat,
                    ),
                forall|j: int|
                    i <= j < count ==> (#[trigger] self.receivers[j]).backlog@ == old(
                        self,
                    ).receivers[j].backlog@,
            decreases count - i,
        {
            let ghost earlier = self.receivers[i as int].backlog@;
            assert(earlier.len() <= self.capacity) by {
                assert(old(self).receivers[i as int].backlog.len() <= self.capacity);
            }
            self.receivers[i].backlog.push(event);
            if self.receivers[i].backlog.len() > self.capacity {
                let _ = self.receivers[i].backlog.remove(0);
            }
            assert(self.receivers[i as int].backlog@ =~= window(
                earlier.push(event),
                self.capacity as nat,
            ));
            i = i + 1;
        }
        proof {
            let before = old(self).receivers@;
            let after = self.receivers@;
            lemma_same_places(before, after);
            assert forall|id: u64| present(before, id) implies backlogs(after)[id] == window(
                backlogs(before)[id].push(event),
                self.capacity as nat,
            ) by {
                assert(backlogs(after)[id] == after[position_of(before, id)].backlog@);
            }
            assert(self@.pending =~= old(self)@.publish(event).pending);
            assert forall|j: int| 0 <= j < self.receivers.len() implies (
            #[trigger] self.receivers[j]).id < self.next_id && self.receivers[j].backlog.len()
                <= self.capacity by {
                assert(old(self).receivers[j].id < self.next_id);
            }
        }
        Ok(())
    }

    /// Hands receiver `id` its oldest waiting event, which leaves the
    /// backlog. An empty backlog stays as it is.
    pub fn receive(&mut self, id: u64) -> (received: Received)
        requires
            old(self).wf(),
        ensures
            final(self).wf(),
            received == old(self)@.next_for(id),
            final(self)@ == old(self)@.receive(id),
    {
        match self.position(id) {
            None => Received::Gone,
            Some(at) => {
                if self.receivers[at].backlog.len() > 0 {
                    let event = self.receivers[at].backlog.remove(0);
                    proof {
                        let before = old(self).receivers@;
                        let after = self.receivers@;
                        assert(after[at as int].backlog@ =~= before[at as int].backlog@.drop_first());
                        lemma_same_places(before, after);
                        lemma_position(before, at as int);
                        assert forall|other: u64| present(before, other) implies backlogs(
                            after,
                        )[other] == (if other == id {
                            backlogs(before)[id].drop_first()
                        } else {
                            backlogs(before)[other]
                        }) by {
                            assert(backlogs(after)[other] == after[position_of(
                                before,
                                other,
                            )].backlog@);
                        }
                        assert(self@.pending =~= old(self)@.receive(id).pending);
                        assert forall|j: int| 0 <= j < self.receivers.len() implies (
                        #[trigger] self.receivers[j]).id < self.next_id
                            && self.receivers[j].backlog.len() <= self.capacity by {
                            assert(old(self).receivers[j].id < self.next_id);
                            assert(old(self).receivers[j].backlog.len() <= self.capacity);
                        }
                    }
                    Received::Event(event)
                } else if self.closed {
                    Received::Closed
                } else {
                    Received::Empty
                }
            },
        }
    }

    /// Marks the publishing side as gone. Receivers still get what waits
    /// for them; after that they are told that the bus is closed.
    pub fn close(&mut self)
        requires
            old(self).wf(),
        ensures
            final(self).wf(),
            final(self)@ == old(self)@.close(),
    {
        self.closed = true;
    }
}

} // verus!
