//! What holds of every run of the channel protocol.
//!
//! The shared state of a channel is modelled by a [`ChannelView`]: the ring
//! and one liveness indicator for each handle. A run is a sequence of
//! [`Event`]s, each one attempt of a handle or the destruction of one. The
//! transitions are built from the very functions by which the executable
//! code states what it does: [`admission`], [`RingView::offer`] and
//! [`RingView::poll`].

use vstd::prelude::*;
use crate::error::RecvError;
use crate::error::SendError;
use crate::ring::RingView;
use crate::step::admission;
use crate::step::RecvStep;
use crate::step::SendStep;

verus! {

/// The shared state of a channel: the ring, and for each handle whether it
/// is still alive.
pub struct ChannelView<T> {
    pub ring: RingView<T>,
    pub producer_live: bool,
    pub consumer_live: bool,
}

/// What can happen to a channel. An attempt that finds the lock taken
/// changes nothing and is no event.
pub enum Event<T> {
    /// The first attempt of a send.
    BeginSend(T),
    /// A further attempt of a send that found no room.
    ResumeSend(T),
    /// One attempt of a receive.
    Poll,
    /// The producer handle is destroyed.
    DropProducer,
    /// The consumer handle is destroyed.
    DropConsumer,
}

impl<T> ChannelView<T> {
    /// The state in which a channel is created.
    pub open spec fn fresh(capacity: nat) -> Self {
        ChannelView { ring: RingView::fresh(capacity), producer_live: true, consumer_live: true }
    }

    /// The first attempt of a send: refused at once when the consumer is
    /// gone, otherwise an attempt like any later one.
    pub open spec fn begin_send(self, val: T) -> (Self, SendStep<T>) {
        match admission(self.consumer_live, val) {
            Err(rejected) => (self, SendStep::Done(Err(rejected))),
            Ok(val) => self.resume_send(val),
        }
    }

    /// A further attempt of a send: it looks for room and for nothing else.
    pub open spec fn resume_send(self, val: T) -> (Self, SendStep<T>) {
        let (ring, step) = self.ring.offer(val);
        (ChannelView { ring, ..self }, step)
    }

    /// One attempt of a receive.
    pub open spec fn poll_recv(self) -> (Self, RecvStep<T>) {
        let (ring, step) = self.ring.poll(self.producer_live);
        (ChannelView { ring, ..self }, step)
    }

    pub open spec fn drop_producer(self) -> Self {
        ChannelView { producer_live: false, ..self }
    }

    pub open spec fn drop_consumer(self) -> Self {
        ChannelView { consumer_live: false, ..self }
    }

    /// The state after one event.
    pub open spec fn after(self, event: Event<T>) -> Self {
        match event {
            Event::BeginSend(val) => self.begin_send(val).0,
            Event::ResumeSend(val) => self.resume_send(val).0,
            Event::Poll => self.poll_recv().0,
            Event::DropProducer => self.drop_producer(),
            Event::DropConsumer => self.drop_consumer(),
        }
    }

    /// The value that one event wrote into the ring, if it wrote one.
    pub open spec fn accepted_by(self, event: Event<T>) -> Seq<T> {
        match event {
            Event::BeginSend(val) => if self.begin_send(val).1 == SendStep::<T>::Done(Ok(())) {
                seq![val]
            } else {
                Seq::empty()
            },
            Event::ResumeSend(val) => if self.resume_send(val).1 == SendStep::<T>::Done(Ok(())) {
                seq![val]
            } else {
                Seq::empty()
            },
            _ => Seq::empty(),
        }
    }

    /// The value that one event handed to the consumer, if it handed one.
    pub open spec fn received_by(self, event: Event<T>) -> Seq<T> {
        match event {
            Event::Poll => match self.poll_recv().1 {
                RecvStep::Done(Ok(val)) => seq![val],
                _ => Seq::empty(),
            },
            _ => Seq::empty(),
        }
    }

    /// The state after a run of events.
    pub open spec fn run(self, events: Seq<Event<T>>) -> Self
        decreases events.len(),
    {
        if events.len() == 0 {
            self
        } else {
            self.run(events.drop_last()).after(events.last())
        }
    }

    /// The values that a run of events wrote into the ring, in the order of
    /// the sends that wrote them.
    pub open spec fn accepted(self, events: Seq<Event<T>>) -> Seq<T>
        decreases events.len(),
    {
        if events.len() == 0 {
            Seq::empty()
        } else {
            self.accepted(events.drop_last()) + self.run(events.drop_last()).accepted_by(
                events.last(),
            )
        }
    }

    /// The values that a run of events handed to the consumer, in the order
    /// of the receives that returned them.
    pub open spec fn received(self, events: Seq<Event<T>>) -> Seq<T>
        decreases events.len(),
    {
        if events.len() == 0 {
            Seq::empty()
        } else {
            self.received(events.drop_last()) + self.run(events.drop_last()).received_by(
                events.last(),
            )
        }
    }

    /// The state after `n` attempts to receive, one after the other.
    pub open spec fn polled(self, n: nat) -> Self
        decreases n,
    {
        if n == 0 {
            self
        } else {
            self.polled((n - 1) as nat).poll_recv().0
        }
    }
}

/// Capacity bound: whatever happens to a channel, its cursors keep the
/// cursor invariant, so the write cursor is never more than the capacity
/// ahead of the read cursor and never behind it.
pub proof fn lemma_capacity_bound<T>(start: ChannelView<T>, events: Seq<Event<T>>)
    requires
        start.ring.inv(),
    ensures
        start.run(events).ring.inv(),
        start.run(events).ring.capacity == start.ring.capacity,
        0 <= start.run(events).ring.occupancy() <= start.ring.capacity,
    decreases events.len(),
{
    if events.len() > 0 {
        lemma_capacity_bound(start, events.drop_last());
    }
}

/// First in, first out: over any run of events, the ring's record of what
/// was written grows by exactly the values accepted, in the order of their
/// sends, and the values received are exactly the stretch of that record
/// that the read cursor has passed. Nothing is reordered, lost or handed
/// out twice, however often the cursors go round the ring.
pub proof fn lemma_fifo<T>(start: ChannelView<T>, events: Seq<Event<T>>)
    requires
        start.ring.inv(),
    ensures
        start.run(events).ring.sent == start.ring.sent + start.accepted(events),
        start.ring.read_cursor <= start.run(events).ring.read_cursor
            <= start.run(events).ring.sent.len(),
        start.received(events) == start.run(events).ring.sent.subrange(
            start.ring.read_cursor as int,
            start.run(events).ring.read_cursor as int,
        ),
    decreases events.len(),
{
    if events.len() > 0 {
        lemma_fifo(start, events.drop_last());
        lemma_capacity_bound(start, events.drop_last());
    }
}

/// First in, first out, from the creation of a channel: the values received
/// so far are the first so many of the values accepted, in the same order,
/// and the values accepted and not yet received are those that wait in the
/// ring.
pub proof fn lemma_fifo_from_creation<T>(capacity: nat, events: Seq<Event<T>>)
    requires
        capacity >= 1,
    ensures
        ({
            let start = ChannelView::<T>::fresh(capacity);
            let accepted = start.accepted(events);
            let received = start.received(events);
            &&& received.len() <= accepted.len()
            &&& received == accepted.subrange(0, received.len() as int)
            &&& received == start.run(events).ring.delivered()
            &&& accepted == received + start.run(events).ring.pending()
        }),
{
    let start = ChannelView::<T>::fresh(capacity);
    lemma_fifo(start, events);
}

/// A handle that is gone stays gone: nothing that happens to a channel
/// brings a liveness indicator back.
pub proof fn lemma_departure_is_final<T>(start: ChannelView<T>, events: Seq<Event<T>>)
    ensures
        !start.producer_live ==> !start.run(events).producer_live,
        !start.consumer_live ==> !start.run(events).consumer_live,
    decreases events.len(),
{
    if events.len() > 0 {
        lemma_departure_is_final(start, events.drop_last());
    }
}

/// Closed channel: once the producer is gone and the ring is drained, an
/// attempt to receive fails with `RecvError` and leaves the channel as it
/// was, and so does every attempt after it.
pub proof fn lemma_closed_channel<T>(state: ChannelView<T>, n: nat)
    requires
        !state.producer_live,
        state.ring.is_empty(),
    ensures
        state.polled(n) == state,
        state.polled(n).poll_recv() == (state, RecvStep::<T>::Done(Err(RecvError))),
    decreases n,
{
    if n > 0 {
        lemma_closed_channel(state, (n - 1) as nat);
    }
}

/// Rejected send: once the consumer is gone, whatever else happens to the
/// channel afterwards, a send that begins fails with `SendError` around the
/// very value it was given and leaves the channel as it was.
pub proof fn lemma_rejected_send<T>(state: ChannelView<T>, events: Seq<Event<T>>, val: T)
    requires
        !state.consumer_live,
    ensures
        state.run(events).begin_send(val) == (
            state.run(events),
            SendStep::Done(Err(SendError(val))),
        ),
{
    lemma_departure_is_final(state, events);
}

} // verus!
