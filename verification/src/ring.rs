//! The ring of slots and its two cursors.

use vstd::prelude::*;
use crate::error::RecvError;
use crate::step::RecvStep;
use crate::step::SendStep;

verus! {

/// The ring as the protocol sees it: a capacity, every value that was ever
/// written, in the order of writing, and the number of values read so far.
///
/// The write cursor is the length of `sent`. Both cursors only grow; they
/// count slots in a logical index space that never wraps.
pub struct RingView<T> {
    pub capacity: nat,
    pub sent: Seq<T>,
    pub read_cursor: nat,
}

impl<T> RingView<T> {
    /// The number of values written so far.
    pub open spec fn write_cursor(self) -> nat {
        self.sent.len()
    }

    /// The cursor invariant: the reader never overtakes the writer, and the
    /// writer is never more than `capacity` slots ahead of the reader.
    pub open spec fn inv(self) -> bool {
        &&& self.capacity >= 1
        &&& self.read_cursor <= self.write_cursor()
        &&& self.write_cursor() <= self.read_cursor + self.capacity
    }

    /// A ring in which nothing was written yet.
    pub open spec fn fresh(capacity: nat) -> Self {
        RingView { capacity, sent: Seq::empty(), read_cursor: 0 }
    }

    /// The number of values written and not yet read.
    pub open spec fn occupancy(self) -> int {
        self.write_cursor() - self.read_cursor
    }

    pub open spec fn is_empty(self) -> bool {
        self.read_cursor == self.write_cursor()
    }

    pub open spec fn has_room(self) -> bool {
        self.write_cursor() < self.read_cursor + self.capacity
    }

    /// Whether the logical slot `k` holds a value that was written and not
    /// yet read.
    pub open spec fn is_live(self, k: int) -> bool {
        self.read_cursor <= k < self.write_cursor()
    }

    /// The physical slot in which the logical slot `k` lies.
    pub open spec fn slot_of(self, k: int) -> int {
        k % (self.capacity as int)
    }

    /// The physical slot of the read cursor.
    pub open spec fn read_slot(self) -> int {
        self.slot_of(self.read_cursor as int)
    }

    /// The physical slot of the write cursor.
    pub open spec fn write_slot(self) -> int {
        self.slot_of(self.write_cursor() as int)
    }

    /// The values written and not yet read, oldest first.
    pub open spec fn pending(self) -> Seq<T> {
        self.sent.subrange(self.read_cursor as int, self.write_cursor() as int)
    }

    /// The values read so far, in the order of reading.
    pub open spec fn delivered(self) -> Seq<T> {
        self.sent.subrange(0, self.read_cursor as int)
    }

    /// The oldest value not yet read.
    pub open spec fn front(self) -> T {
        self.sent[self.read_cursor as int]
    }

    /// The ring after `val` was written at the write cursor.
    pub open spec fn push(self, val: T) -> Self {
        RingView { sent: self.sent.push(val), ..self }
    }

    /// The ring after the value at the read cursor was read.
    pub open spec fn pop(self) -> Self {
        RingView { read_cursor: self.read_cursor + 1, ..self }
    }

    /// One attempt to write `val`: with room it is written and the write
    /// cursor moves on by one; without room nothing changes and the value
    /// comes back for another attempt.
    pub open spec fn offer(self, val: T) -> (Self, SendStep<T>) {
        if self.has_room() {
            (self.push(val), SendStep::Done(Ok(())))
        } else {
            (self, SendStep::Retry(val))
        }
    }

    /// One attempt to read: the oldest unread value if there is one;
    /// otherwise nothing changes, and the attempt ends the receive for good
    /// when no producer is left, or asks for another attempt when one is.
    pub open spec fn poll(self, producer_live: bool) -> (Self, RecvStep<T>) {
        if !self.is_empty() {
            (self.pop(), RecvStep::Done(Ok(self.front())))
        } else if !producer_live {
            (self, RecvStep::Done(Err(RecvError)))
        } else {
            (self, RecvStep::Retry)
        }
    }
}

/// A fixed ring of slots, each holding one value or nothing.
///
/// The ring keeps where its read cursor lies among the slots and how many
/// slots are occupied; the cursors themselves, which never wrap, and the
/// values written so far are kept as ghost state.
pub struct Ring<T> {
    slots: Vec<Option<T>>,
    /// The physical slot of the read cursor.
    head: usize,
    /// The number of occupied slots.
    len: usize,
    sent: Ghost<Seq<T>>,
    read_cursor: Ghost<nat>,
}

/// How far the physical slot `i` lies ahead of the slot `head`, going round
/// a ring of `capacity` slots.
spec fn distance(head: int, i: int, capacity: int) -> int {
    if i >= head {
        i - head
    } else {
        i + capacity - head
    }
}

/// What the physical slot `i` has to hold when the read cursor lies in the
/// slot `head`: the value of the logical slot that it stands for while that
/// slot is live, and nothing otherwise.
spec fn slot_content<T>(view: RingView<T>, head: int, i: int) -> Option<T> {
    let d = distance(head, i, view.capacity as int);
    if d < view.occupancy() {
        Some(view.sent[view.read_cursor + d])
    } else {
        None
    }
}

impl<T> View for Ring<T> {
    type V = RingView<T>;

    closed spec fn view(&self) -> RingView<T> {
        RingView {
            capacity: self.slots@.len(),
            sent: self.sent@,
            read_cursor: self.read_cursor@,
        }
    }
}

impl<T> Ring<T> {
    /// The slots as they lie in memory.
    pub closed spec fn slots(&self) -> Seq<Option<T>> {
        self.slots@
    }

    /// The physical slot of the read cursor.
    pub closed spec fn head(&self) -> int {
        self.head as int
    }

    /// The ring is well formed: its cursors obey the cursor invariant, the
    /// read cursor lies in the slot that its value modulo the capacity
    /// names, and each slot holds exactly what the cursors say it holds.
    pub closed spec fn wf(&self) -> bool {
        &&& self@.inv()
        &&& self.len == self@.occupancy()
        &&& self.head == self@.slot_of(self.read_cursor@ as int)
        &&& forall|i: int|
            0 <= i < self.slots@.len() ==> #[trigger] self.slots@[i] == slot_content(
                self@,
                self.head as int,
                i,
            )
    }

    /// A ring of `capacity` empty slots.
    pub fn new(capacity: usize) -> (ring: Ring<T>)
        requires
            capacity >= 1,
        ensures
            ring.wf(),
            ring@ == RingView::<T>::fresh(capacity as nat),
    {
        let mut slots: Vec<Option<T>> = Vec::new();
        let mut filled: usize = 0;
        while filled < capacity
            invariant
                filled <= capacity,
                slots@.len() == filled,
                forall|i: int| 0 <= i < filled ==> #[trigger] slots@[i] is None,
            decreases capacity - filled,
        {
            slots.push(None);
            filled = filled + 1;
        }
        Ring { slots, head: 0, len: 0, sent: Ghost(Seq::empty()), read_cursor: Ghost(0) }
    }

    /// One attempt to write `val` at the write cursor.
    ///
    /// With room, the value goes into the slot of the write cursor, which
    /// was empty, and the cursor moves on by one; no other slot changes.
    /// Without room the ring stays as it is and the value comes back.
    pub fn offer(&mut self, val: T) -> (step: SendStep<T>)
        requires
            old(self).wf(),
        ensures
            final(self).wf(),
            (final(self)@, step) == old(self)@.offer(val),
            old(self)@.has_room() ==> final(self).slots() == old(self).slots().update(
                old(self)@.write_slot(),
                Some(val),
            ),
            !old(self)@.has_room() ==> final(self).slots() == old(self).slots(),
        no_unwind
    {
        let capacity: usize = self.slots.len();
        if self.len < capacity {
            let room: usize = capacity - self.len;
            let tail: usize = if self.head < room {
                self.head + self.len
            } else {
                self.head - room
            };
            proof {
                lemma_slot_ahead(self.read_cursor@ as int, self.len as int, capacity as int);
            }
            self.slots[tail] = Some(val);
            self.len = self.len + 1;
            self.sent = Ghost(self.sent@.push(val));
            SendStep::Done(Ok(()))
        } else {
            SendStep::Retry(val)
        }
    }

    /// One attempt to read the value at the read cursor.
    ///
    /// With a value there, it leaves the slot of the read cursor, which is
    /// empty from then on, and the cursor moves on by one; no other slot
    /// changes. With none, the ring stays as it is: the receive is over for
    /// good when `producer_live` is false, and is to be attempted again when
    /// it is true.
    pub fn poll(&mut self, producer_live: bool) -> (step: RecvStep<T>)
        requires
            old(self).wf(),
        ensures
            final(self).wf(),
            (final(self)@, step) == old(self)@.poll(producer_live),
            !old(self)@.is_empty() ==> final(self).slots() == old(self).slots().update(
                old(self)@.read_slot(),
                None,
            ),
            old(self)@.is_empty() ==> final(self).slots() == old(self).slots(),
        no_unwind
    {
        if self.len > 0 {
            let capacity: usize = self.slots.len();
            let mut taken: Option<T> = None;
            std::mem::swap(&mut self.slots[self.head], &mut taken);
            match taken {
                Some(val) => {
                    proof {
                        lemma_next_slot(self.read_cursor@ as int, capacity as int);
                    }
                    self.head = if self.head + 1 == capacity {
                        0
                    } else {
                        self.head + 1
                    };
                    self.len = self.len - 1;
                    self.read_cursor = Ghost(self.read_cursor@ + 1);
                    RecvStep::Done(Ok(val))
                },
                // The slot of the read cursor of a ring that is not empty
                // always holds a value.
                None => RecvStep::Retry,
            }
        } else if !producer_live {
            RecvStep::Done(Err(RecvError))
        } else {
            RecvStep::Retry
        }
    }
}

impl<T> Ring<T> {
    /// The number of slots.
    pub fn capacity(&self) -> (n: usize)
        ensures
            n == self@.capacity,
    {
        self.slots.len()
    }

    /// The number of values written and not yet read.
    pub fn len(&self) -> (n: usize)
        requires
            self.wf(),
        ensures
            n == self@.occupancy(),
    {
        self.len
    }

    /// Whether every value written has been read.
    pub fn is_empty(&self) -> (empty: bool)
        requires
            self.wf(),
        ensures
            empty == self@.is_empty(),
    {
        self.len == 0
    }

    /// Whether no slot is free.
    pub fn is_full(&self) -> (full: bool)
        requires
            self.wf(),
        ensures
            full == !self@.has_room(),
    {
        self.len == self.slots.len()
    }

    /// The cursors of a well-formed ring keep the cursor invariant, and the
    /// ring has as many slots as its capacity says.
    pub proof fn lemma_cursor_invariant(&self)
        requires
            self.wf(),
        ensures
            self@.inv(),
            self.slots().len() == self@.capacity,
            0 <= self@.occupancy() <= self@.capacity,
            self.head() == self@.slot_of(self@.read_cursor as int),
    {
    }

    /// A logical slot that is live lies in the physical slot that its index
    /// modulo the capacity names, and that slot holds its value.
    pub proof fn lemma_live_slot(&self, k: int)
        requires
            self.wf(),
            self@.is_live(k),
        ensures
            0 <= self@.slot_of(k) < self@.capacity,
            self.slots()[self@.slot_of(k)] == Some(self@.sent[k]),
    {
        let capacity = self@.capacity as int;
        let read = self@.read_cursor as int;
        lemma_slot_ahead(read, k - read, capacity);
    }

    /// The slot of the write cursor of a ring with room holds nothing: a
    /// value is never written over one that was not read.
    pub proof fn lemma_write_slot_is_free(&self)
        requires
            self.wf(),
            self@.has_room(),
        ensures
            0 <= self@.write_slot() < self@.capacity,
            self.slots()[self@.write_slot()] is None,
    {
        lemma_slot_ahead(
            self@.read_cursor as int,
            self@.occupancy(),
            self@.capacity as int,
        );
    }

    /// A physical slot in which no live logical slot lies holds nothing.
    pub proof fn lemma_idle_slot(&self, i: int)
        requires
            self.wf(),
            0 <= i < self@.capacity,
            forall|k: int| self@.is_live(k) ==> self@.slot_of(k) != i,
        ensures
            self.slots()[i] is None,
    {
        let capacity = self@.capacity as int;
        let read = self@.read_cursor as int;
        let d = distance(self.head as int, i, capacity);
        if d < self@.occupancy() {
            lemma_slot_ahead(read, d, capacity);
            assert(self@.is_live(read + d));
        }
    }
}

/// The physical slot of the cursor that lies `d` slots ahead of `cursor`
/// lies `d` slots ahead of the physical slot of `cursor`, round the ring.
proof fn lemma_slot_ahead(cursor: int, d: int, capacity: int)
    requires
        cursor >= 0,
        capacity >= 1,
        0 <= d < capacity,
    ensures
        0 <= cursor % capacity < capacity,
        0 <= (cursor + d) % capacity < capacity,
        distance(cursor % capacity, (cursor + d) % capacity, capacity) == d,
{
    let q = cursor / capacity;
    let r = cursor % capacity;
    vstd::arithmetic::div_mod::lemma_fundamental_div_mod(cursor, capacity);
    vstd::arithmetic::div_mod::lemma_mod_bound(cursor, capacity);
    if r + d < capacity {
        assert(cursor + d == q * capacity + (r + d)) by (nonlinear_arith)
            requires
                cursor == capacity * q + r,
        ;
        vstd::arithmetic::div_mod::lemma_fundamental_div_mod_converse(
            cursor + d,
            capacity,
            q,
            r + d,
        );
    } else {
        assert(cursor + d == (q + 1) * capacity + (r + d - capacity)) by (nonlinear_arith)
            requires
                cursor == capacity * q + r,
        ;
        vstd::arithmetic::div_mod::lemma_fundamental_div_mod_converse(
            cursor + d,
            capacity,
            q + 1,
            r + d - capacity,
        );
    }
}

/// Moving a cursor on by one moves its physical slot on by one, round the
/// ring.
proof fn lemma_next_slot(cursor: int, capacity: int)
    requires
        cursor >= 0,
        capacity >= 1,
    ensures
        0 <= cursor % capacity < capacity,
        (cursor + 1) % capacity == if cursor % capacity + 1 == capacity {
            0
        } else {
            cursor % capacity + 1
        },
{
    let q = cursor / capacity;
    let r = cursor % capacity;
    vstd::arithmetic::div_mod::lemma_fundamental_div_mod(cursor, capacity);
    vstd::arithmetic::div_mod::lemma_mod_bound(cursor, capacity);
    if r + 1 == capacity {
        assert(cursor + 1 == (q + 1) * capacity + 0) by (nonlinear_arith)
            requires
                cursor == capacity * q + r,
                r + 1 == capacity,
        ;
        vstd::arithmetic::div_mod::lemma_fundamental_div_mod_converse(
            cursor + 1,
            capacity,
            q + 1,
            0,
        );
    } else {
        assert(cursor + 1 == q * capacity + (r + 1)) by (nonlinear_arith)
            requires
                cursor == capacity * q + r,
        ;
        vstd::arithmetic::div_mod::lemma_fundamental_div_mod_converse(
            cursor + 1,
            capacity,
            q,
            r + 1,
        );
    }
}

} // verus!
