//! The two handles of a channel and the state that they share.
//!
//! # How the two sides keep out of each other's way
//!
//! The ring lies behind one lock, and each side reads the cursors, decides
//! and moves its cursor while it holds that lock: the critical section is
//! the whole attempt. The lock is only ever tried, never waited for, so no
//! attempt parks its thread; an attempt that finds the lock taken asks for
//! another attempt, as one that finds the ring full or empty does. The lock
//! is given up when the attempt returns, whatever it returns.
//!
//! The two liveness indicators lie beside the lock. Each is written once,
//! by the destructor of its handle, and read by the other side; all these
//! accesses are sequentially consistent.
//!
//! - A receive reads the producer's indicator while it holds the lock. If
//!   it reads [`GONE`], the producer's destructor has run, so every send of
//!   that producer has returned and has given up the lock before this
//!   receive took it: an empty ring then stays empty for good.
//! - A send reads the consumer's indicator once, before its first attempt.
//!   If it reads [`GONE`], no receive will ever run again, and the send
//!   fails without touching the ring.
//!
//! # What becomes of values that are never received
//!
//! The shared state is owned by both handles and freed with the second of
//! them. The values that then still lie in the ring are dropped with it,
//! each once.

use vstd::prelude::*;
use std::sync::atomic::AtomicUsize;
use std::sync::atomic::Ordering;
use std::sync::Arc;
use std::sync::Mutex;
use crate::error::SendError;
use crate::ring::Ring;
use crate::step::screen_send;
use crate::step::RecvStep;
use crate::step::SendStep;
use crate::sync::locked;
use crate::sync::share;
use crate::sync::store_seq_cst;
use crate::sync::try_acquire;

verus! {

/// The number of slots of a channel made by [`channel`] or [`SPSC::new`].
pub const BUFFER_SIZE: usize = 4096;

/// What a liveness indicator holds while its handle lives.
pub const LIVE: usize = 1;

/// What a liveness indicator holds from the destruction of its handle on.
pub const GONE: usize = 0;

/// Whether a liveness indicator that was read as `indicator` tells of a
/// handle that lives.
pub fn tells_live(indicator: usize) -> (live: bool)
    ensures
        live == (indicator != GONE),
{
    indicator != GONE
}

/// A ring that is well formed wherever it is met: whoever takes the lock
/// finds it so and has to leave it so.
struct Sealed<T> {
    ring: Ring<T>,
}

impl<T> Sealed<T> {
    #[verifier::type_invariant]
    spec fn wf(&self) -> bool {
        self.ring.wf()
    }

    fn new(ring: Ring<T>) -> (sealed: Sealed<T>)
        requires
            ring.wf(),
        ensures
            sealed.ring == ring,
    {
        Sealed { ring }
    }

    fn offer(&mut self, val: T) -> (step: SendStep<T>)
        ensures
            (final(self).ring@, step) == old(self).ring@.offer(val),
    {
        proof {
            use_type_invariant(&*self);
        }
        self.ring.offer(val)
    }

    fn poll(&mut self, producer_live: bool) -> (step: RecvStep<T>)
        ensures
            (final(self).ring@, step) == old(self).ring@.poll(producer_live),
    {
        proof {
            use_type_invariant(&*self);
        }
        self.ring.poll(producer_live)
    }
}

/// What the two handles of one channel share.
#[verifier::reject_recursive_types(T)]
struct Shared<T> {
    ring: Mutex<Sealed<T>>,
    /// [`LIVE`] while the producer handle lives, [`GONE`] from its
    /// destruction on.
    producer_live: AtomicUsize,
    /// [`LIVE`] while the consumer handle lives, [`GONE`] from its
    /// destruction on.
    consumer_live: AtomicUsize,
    capacity: usize,
}

/// The sending half of a channel.
#[verifier::reject_recursive_types(T)]
pub struct Producer<T: Send> {
    shared: Arc<Shared<T>>,
}

/// The receiving half of a channel.
#[verifier::reject_recursive_types(T)]
pub struct Consumer<T: Send> {
    shared: Arc<Shared<T>>,
}

/// A channel before its two halves part.
#[verifier::reject_recursive_types(T)]
pub struct SPSC<T: Send> {
    producer: Producer<T>,
    consumer: Consumer<T>,
}

impl<T: Send> Producer<T> {
    /// The number of slots of the channel.
    pub closed spec fn spec_capacity(&self) -> usize {
        self.shared.capacity
    }

    /// Whether `consumer` is the other half of this producer's channel.
    pub closed spec fn is_peer_of(&self, consumer: &Consumer<T>) -> bool {
        self.shared == consumer.shared
    }

    /// The number of slots of the channel.
    #[verifier::when_used_as_spec(spec_capacity)]
    pub fn capacity(&self) -> (n: usize)
        ensures
            n == self.spec_capacity(),
    {
        self.shared.capacity
    }

    /// The first attempt of a send.
    ///
    /// Reads the consumer's indicator and goes on as
    /// [`Producer::begin_send_seeing`] does with what it read.
    pub fn begin_send(&self, val: T) -> (step: SendStep<T>)
        ensures
            step.returns_only(val),
    {
        let indicator: usize = self.shared.consumer_live.load(Ordering::SeqCst);
        self.begin_send_seeing(tells_live(indicator), val)
    }

    /// The first attempt of a send, given what the consumer's indicator
    /// told when the send began.
    ///
    /// With the consumer gone, the send is over: it fails with `val` inside,
    /// and the ring is not touched. With the consumer alive this is an
    /// attempt like [`Producer::resume_send`].
    pub fn begin_send_seeing(&self, consumer_live: bool, val: T) -> (step: SendStep<T>)
        ensures
            !consumer_live ==> step == SendStep::Done(Err(SendError(val))),
            consumer_live ==> (step == SendStep::<T>::Done(Ok(())) || step == SendStep::Retry(val)),
    {
        match screen_send(consumer_live, val) {
            Err(rejected) => SendStep::Done(Err(rejected)),
            Ok(val) => self.resume_send(val),
        }
    }

    /// A further attempt of a send that was begun and found no room.
    ///
    /// With the lock free and room in the ring, `val` is written and the
    /// send is over: `Done(Ok(()))`. Otherwise nothing is written and `val`
    /// comes back in `Retry`. Such an attempt never fails.
    pub fn resume_send(&self, val: T) -> (step: SendStep<T>)
        ensures
            step == SendStep::<T>::Done(Ok(())) || step == SendStep::Retry(val),
    {
        match try_acquire(&self.shared.ring) {
            Some(mut guard) => locked(&mut guard).offer(val),
            None => SendStep::Retry(val),
        }
    }
}

impl<T: Send> Consumer<T> {
    /// The number of slots of the channel.
    pub closed spec fn spec_capacity(&self) -> usize {
        self.shared.capacity
    }

    /// The number of slots of the channel.
    #[verifier::when_used_as_spec(spec_capacity)]
    pub fn capacity(&self) -> (n: usize)
        ensures
            n == self.spec_capacity(),
    {
        self.shared.capacity
    }

    /// One attempt of a receive. With the lock taken: `Retry`. With the lock
    /// free, the step is what [`Ring::poll`] makes of the ring found behind
    /// it and of the producer's indicator as read under the lock: the oldest
    /// value not yet received; or `Done(Err(RecvError))`, from an empty ring
    /// whose producer is gone; or `Retry`, from one whose producer lives.
    /// What is found is the other thread's doing: no step is promised here.
    pub fn poll_recv(&self) -> (step: RecvStep<T>) {
        match try_acquire(&self.shared.ring) {
            Some(mut guard) => {
                let indicator: usize = self.shared.producer_live.load(Ordering::SeqCst);
                locked(&mut guard).poll(tells_live(indicator))
            },
            None => RecvStep::Retry,
        }
    }
}

impl<T: Send> Drop for Producer<T> {
    /// Marks the producer as gone, for the consumer to see.
    fn drop(&mut self)
        opens_invariants none
        no_unwind
    {
        store_seq_cst(&self.shared.producer_live, GONE);
    }
}

impl<T: Send> Drop for Consumer<T> {
    /// Marks the consumer as gone, for the producer to see.
    fn drop(&mut self)
        opens_invariants none
        no_unwind
    {
        store_seq_cst(&self.shared.consumer_live, GONE);
    }
}

impl<T: Send> SPSC<T> {
    /// The two halves belong to one channel.
    #[verifier::type_invariant]
    spec fn halves_are_peers(&self) -> bool {
        self.producer.is_peer_of(&self.consumer)
    }

    /// The number of slots of the channel.
    pub closed spec fn spec_capacity(&self) -> usize {
        self.producer.shared.capacity
    }

    /// A channel of [`BUFFER_SIZE`] slots, empty, with both halves alive.
    pub fn new() -> (spsc: SPSC<T>)
        ensures
            spsc.spec_capacity() == BUFFER_SIZE,
    {
        SPSC::with_capacity(BUFFER_SIZE)
    }

    /// A channel of `capacity` slots, empty, with both halves alive.
    pub fn with_capacity(capacity: usize) -> (spsc: SPSC<T>)
        requires
            capacity >= 1,
        ensures
            spsc.spec_capacity() == capacity,
    {
        let ring: Ring<T> = Ring::new(capacity);
        let slots: usize = ring.capacity();
        let shared = Arc::new(
            Shared {
                ring: Mutex::new(Sealed::new(ring)),
                producer_live: AtomicUsize::new(LIVE),
                consumer_live: AtomicUsize::new(LIVE),
                capacity: slots,
            },
        );
        let peer = share(&shared);
        SPSC { producer: Producer { shared }, consumer: Consumer { shared: peer } }
    }

    /// Parts the channel into its two halves.
    pub fn split(self) -> (halves: (Producer<T>, Consumer<T>))
        ensures
            halves.0.is_peer_of(&halves.1),
            halves.0.spec_capacity() == self.spec_capacity(),
            halves.1.spec_capacity() == self.spec_capacity(),
    {
        proof {
            use_type_invariant(&self);
        }
        (self.producer, self.consumer)
    }
}

/// The two halves of a new channel of [`BUFFER_SIZE`] slots.
pub fn channel<T: Send>() -> (halves: (Producer<T>, Consumer<T>))
    ensures
        halves.0.is_peer_of(&halves.1),
        halves.0.spec_capacity() == BUFFER_SIZE,
        halves.1.spec_capacity() == BUFFER_SIZE,
{
    let spsc: SPSC<T> = SPSC::new();
    spsc.split()
}

} // verus!
