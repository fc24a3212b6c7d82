//! The bounded queue between one producer and one consumer, for lanes that a worker owns.
//!
//! The two halves share one [`Inner`], which they use one at a time. The blocking operations are
//! given as steps: each makes one attempt and says how to wait before the next.
use vstd::prelude::*;

verus! {

/// How many times a blocking operation spins before it parks.
pub const DEFAULT_SPINS: usize = 256;

/// What a queue holds.
#[verifier::ext_equal]
pub struct QueueView<T> {
    /// The values that were sent and not received, the first sent first.
    pub contents: Seq<T>,
    /// The most values that it holds.
    pub capacity: nat,
    /// Whether the sending half has closed.
    pub sender_closed: bool,
    /// Whether the receiving half has closed.
    pub receiver_closed: bool,
}

/// The ring of slots that both halves use.
#[derive(Debug)]
pub struct Inner<T> {
    slots: Vec<Option<T>>,
    mask: usize,
    head: usize,
    tail: usize,
    sender_closed: bool,
    receiver_closed: bool,
}

/// The sending half.
#[derive(Debug)]
pub struct SpscSender {
    spins: usize,
    failed: usize,
}

/// The receiving half.
#[derive(Debug)]
pub struct SpscReceiver {
    spins: usize,
    failed: usize,
}

/// Why a value was not sent, with the value.
#[derive(Debug, PartialEq, Eq)]
pub enum TrySendError<T> {
    /// The queue is full.
    Full(T),
    /// One of the halves has closed.
    Closed(T),
}

/// A value that cannot be sent because one of the halves has closed.
#[derive(Debug, PartialEq, Eq)]
pub struct SendError<T>(pub T);

/// Why nothing was received.
#[derive(Debug, Clone, Copy, PartialEq, Eq)]
pub enum TryRecvError {
    /// The queue is empty.
    Empty,
    /// The queue is empty, and the sending half has closed.
    Closed,
}

/// How to wait before the next attempt.
#[derive(Debug, Clone, Copy, PartialEq, Eq)]
pub enum Pause {
    /// Try again at once.
    Retry,
    /// Give the processor a hint that this is a spin.
    Spin,
    /// Give the hint, and then park for a short time.
    SpinAndPark,
    /// Park for a short time.
    Park,
}

/// What one attempt of a blocking send gives.
#[derive(Debug)]
pub enum SendStep<T> {
    /// The value is in the queue.
    Sent,
    /// One of the halves has closed.
    Closed(SendError<T>),
    /// The queue is full: wait, and try again.
    Wait(T, Pause),
}

/// What one attempt of a blocking receive gives.
#[derive(Debug)]
pub enum RecvStep<T> {
    /// The first value of the queue.
    Received(T),
    /// The sending half has closed, and everything has been received.
    Closed,
    /// The queue is empty: wait, and try again.
    Wait(Pause),
}

/// How to wait after `failed` attempts of a round have failed before this one.
pub open spec fn pause(spins: usize, failed: usize) -> Pause {
    if failed < spins {
        if failed == 0 {
            Pause::Retry
        } else {
            Pause::Spin
        }
    } else if spins == 0 {
        Pause::Park
    } else {
        Pause::SpinAndPark
    }
}

/// How many attempts of the round have failed after this one: a round ends with a park.
pub open spec fn failures(spins: usize, failed: usize) -> usize {
    if failed < spins {
        (failed + 1) as usize
    } else {
        0
    }
}

fn fail_attempt(spins: usize, failed: &mut usize) -> (wait: Pause)
    ensures
        wait == pause(spins, *old(failed)),
        *final(failed) == failures(spins, *old(failed)),
{
    let before: usize = *failed;
    if before < spins {
        *failed = before + 1;
        if before == 0 {
            Pause::Retry
        } else {
            Pause::Spin
        }
    } else {
        *failed = 0;
        if spins == 0 {
            Pause::Park
        } else {
            Pause::SpinAndPark
        }
    }
}

impl<T> QueueView<T> {
    /// Nothing more can be sent.
    pub open spec fn refuses(self) -> bool {
        self.sender_closed || self.receiver_closed
    }

    /// The queue once `value` has been sent.
    pub open spec fn pushed(self, value: T) -> QueueView<T> {
        QueueView { contents: self.contents.push(value), ..self }
    }

    /// The queue once its first value has been received.
    pub open spec fn popped(self) -> QueueView<T> {
        QueueView { contents: self.contents.drop_first(), ..self }
    }

    /// `after` is the queue after an attempt to send `value`, which gave `result`.
    pub open spec fn tried_send(
        self,
        value: T,
        after: QueueView<T>,
        result: Result<(), TrySendError<T>>,
    ) -> bool {
        if self.refuses() {
            after == self && result == Err::<(), TrySendError<T>>(TrySendError::Closed(value))
        } else if self.contents.len() == self.capacity {
            after == self && result == Err::<(), TrySendError<T>>(TrySendError::Full(value))
        } else {
            after == self.pushed(value) && result == Ok::<(), TrySendError<T>>(())
        }
    }

    /// `after` is the queue after an attempt to receive, which gave `result`.
    pub open spec fn tried_recv(self, after: QueueView<T>, result: Result<T, TryRecvError>) -> bool {
        if self.contents.len() == 0 {
            after == self && result == Err::<T, TryRecvError>(
                if self.sender_closed {
                    TryRecvError::Closed
                } else {
                    TryRecvError::Empty
                },
            )
        } else {
            after == self.popped() && result == Ok::<T, TryRecvError>(self.contents[0])
        }
    }

    /// The values that `count` receives give.
    pub open spec fn received(self, count: nat) -> Seq<T>
        decreases count,
    {
        if count == 0 {
            Seq::empty()
        } else {
            seq![self.contents[0]] + self.popped().received((count - 1) as nat)
        }
    }

    /// The queue after `values` have been sent.
    pub open spec fn sent(self, values: Seq<T>) -> QueueView<T>
        decreases values.len(),
    {
        if values.len() == 0 {
            self
        } else {
            self.pushed(values[0]).sent(values.drop_first())
        }
    }
}

/// The numbers of a counter of the machine's word size.
pub open spec fn counters() -> int {
    usize::MAX + 1
}

/// A capacity divides the number of counter values.
proof fn lemma_wraps(capacity: usize, exponent: nat)
    requires
        capacity == vstd::arithmetic::power2::pow2(exponent),
    ensures
        capacity > 0,
        exponent < usize::BITS,
        exists|turns: int| counters() == #[trigger] (capacity * turns),
{
    vstd::arithmetic::power2::lemma_pow2_pos(exponent);
    vstd::arithmetic::power2::lemma2_to64();
    vstd::arithmetic::power2::lemma2_to64_rest();
    assert(counters() == vstd::arithmetic::power2::pow2(usize::BITS as nat));
    if exponent >= usize::BITS {
        if exponent > usize::BITS {
            vstd::arithmetic::power2::lemma_pow2_strictly_increases(usize::BITS as nat, exponent);
        }
    }
    vstd::arithmetic::power2::lemma_pow2_adds(exponent, (usize::BITS - exponent) as nat);
    assert(counters() == capacity * (vstd::arithmetic::power2::pow2((usize::BITS - exponent) as nat) as int));
}

/// Where the counter value `offset` steps past `start` points.
pub open spec fn slot_of(start: usize, offset: int, capacity: int) -> int {
    (start + offset) % capacity
}

/// Distinct offsets within the capacity point to distinct slots.
proof fn lemma_slots_differ(start: usize, one: int, two: int, capacity: int)
    requires
        0 <= one < two < capacity,
    ensures
        slot_of(start, one, capacity) != slot_of(start, two, capacity),
{
    if slot_of(start, one, capacity) == slot_of(start, two, capacity) {
        vstd::arithmetic::div_mod::lemma_mod_equivalence(start + two, start + one, capacity);
        vstd::arithmetic::div_mod::lemma_small_mod((two - one) as nat, capacity as nat);
    }
}

/// Counting on from a counter that wraps around points to the same slots.
proof fn lemma_slot_after_wrap(start: usize, steps: int, offset: int, capacity: usize, exponent: nat)
    requires
        capacity == vstd::arithmetic::power2::pow2(exponent),
        0 <= steps <= usize::MAX,
    ensures
        slot_of(((start + steps) % counters()) as usize, offset, capacity as int) == slot_of(
            start,
            steps + offset,
            capacity as int,
        ),
{
    lemma_wraps(capacity, exponent);
    let turns = choose|turns: int| counters() == #[trigger] (capacity * turns);
    let wrapped = (start + steps) % counters();
    vstd::arithmetic::div_mod::lemma_fundamental_div_mod(start + steps, counters());
    let rounds = (start + steps) / counters();
    assert(start + steps == capacity * (turns * rounds) + wrapped) by (nonlinear_arith)
        requires
            counters() == capacity * turns,
            start + steps == counters() * rounds + wrapped,
    ;
    vstd::arithmetic::div_mod::lemma_mod_multiples_vanish(
        turns * rounds,
        wrapped + offset,
        capacity as int,
    );
}

/// The distance between two counters, of which the one ahead may have wrapped around.
proof fn lemma_distance(ahead: usize, behind: usize)
    ensures
        (ahead - behind) % counters() == if ahead >= behind {
            ahead - behind
        } else {
            ahead - behind + counters()
        },
{
    if ahead >= behind {
        vstd::arithmetic::div_mod::lemma_small_mod((ahead - behind) as nat, counters() as nat);
    } else {
        vstd::arithmetic::div_mod::lemma_mod_add_multiples_vanish(ahead - behind, counters());
        vstd::arithmetic::div_mod::lemma_small_mod(
            (ahead - behind + counters()) as nat,
            counters() as nat,
        );
    }
}

/// The counter that follows `counter`.
pub open spec fn next_counter(counter: usize) -> usize {
    ((counter + 1) % counters()) as usize
}

proof fn lemma_next_counter(counter: usize)
    ensures
        next_counter(counter) == if counter < usize::MAX {
            counter + 1
        } else {
            0
        },
{
    if counter < usize::MAX {
        vstd::arithmetic::div_mod::lemma_small_mod((counter + 1) as nat, counters() as nat);
    } else {
        vstd::arithmetic::div_mod::lemma_mod_self_0(counters());
    }
}

impl<T> Inner<T> {
    /// How many values are queued.
    pub closed spec fn queued(self) -> int {
        (self.tail - self.head) % counters()
    }

    /// The slots are a power of two, and those between the counters hold values.
    pub closed spec fn wf(self) -> bool {
        &&& exists|exponent: nat| self.slots@.len() == #[trigger] vstd::arithmetic::power2::pow2(exponent)
        &&& self.mask + 1 == self.slots@.len()
        &&& self.queued() <= self.slots@.len()
        &&& forall|j: int|
            0 <= j < self.slots@.len() ==> (#[trigger] self.slots@[slot_of(
                self.head,
                j,
                self.slots@.len() as int,
            )] is Some <==> j < self.queued())
    }

    fn position(&self, counter: usize) -> (position: usize)
        requires
            self.wf(),
        ensures
            position == slot_of(counter, 0, self.slots@.len() as int),
            position < self.slots@.len(),
    {
        proof {
            let exponent = choose|exponent: nat| self.slots@.len() == #[trigger] vstd::arithmetic::power2::pow2(exponent);
            lemma_wraps(self.slots.len(), exponent);
            vstd::bits::lemma_usize_low_bits_mask_is_mod(counter, exponent);
            vstd::arithmetic::div_mod::lemma_mod_bound(counter as int, self.slots@.len() as int);
        }
        counter & self.mask
    }

    /// A queue whose capacity is the next power of two.
    pub fn new(capacity: usize) -> (queue: Inner<T>)
        requires
            0 < capacity <= usize::MAX / 2 + 1,
        ensures
            queue.wf(),
            queue@.contents == Seq::<T>::empty(),
            !queue@.sender_closed,
            !queue@.receiver_closed,
            exists|exponent: nat| queue@.capacity == #[trigger] vstd::arithmetic::power2::pow2(exponent),
            capacity <= queue@.capacity < 2 * capacity,
    {
        let mut rounded: usize = 1;
        let ghost mut exponent: nat = 0;
        proof {
            vstd::arithmetic::power2::lemma2_to64();
        }
        while rounded < capacity
            invariant
                rounded == vstd::arithmetic::power2::pow2(exponent),
                1 <= rounded < 2 * capacity,
                0 < capacity <= usize::MAX / 2 + 1,
            decreases 2 * capacity - rounded,
        {
            rounded = rounded * 2;
            proof {
                vstd::arithmetic::power2::lemma_pow2_unfold(exponent + 1);
                exponent = exponent + 1;
            }
        }
        let mut slots: Vec<Option<T>> = Vec::new();
        let mut i: usize = 0;
        while i < rounded
            invariant
                i <= rounded,
                slots@.len() == i,
                forall|k: int| 0 <= k < i ==> #[trigger] slots@[k] is None,
            decreases rounded - i,
        {
            slots.push(None);
            i = i + 1;
        }
        let queue = Inner {
            slots,
            mask: rounded - 1,
            head: 0,
            tail: 0,
            sender_closed: false,
            receiver_closed: false,
        };
        proof {
            vstd::arithmetic::div_mod::lemma_small_mod(0, counters() as nat);
            assert(queue.queued() == 0);
            assert forall|j: int|
                0 <= j < queue.slots@.len() implies #[trigger] queue.slots@[slot_of(
                queue.head,
                j,
                queue.slots@.len() as int,
            )] is None by {
                vstd::arithmetic::div_mod::lemma_small_mod(j as nat, queue.slots@.len());
            }
            assert(queue@.contents =~= Seq::<T>::empty());
        }
        queue
    }

    /// The most values that it holds.
    pub fn capacity(&self) -> (capacity: usize)
        ensures
            capacity == self@.capacity,
    {
        self.slots.len()
    }

    /// How many values are queued.
    pub fn len(&self) -> (len: usize)
        requires
            self.wf(),
        ensures
            len == self@.contents.len(),
    {
        proof {
            lemma_distance(self.tail, self.head);
        }
        self.tail.wrapping_sub(self.head)
    }

    fn push(&mut self, value: T)
        requires
            old(self).wf(),
            old(self)@.contents.len() < old(self)@.capacity,
        ensures
            final(self).wf(),
            final(self)@ == old(self)@.pushed(value),
    {
        let ghost before = *self;
        let ghost capacity = self.slots@.len() as int;
        let ghost exponent = choose|exponent: nat|
            self.slots@.len() == #[trigger] vstd::arithmetic::power2::pow2(exponent);
        let position: usize = self.position(self.tail);
        proof {
            lemma_wraps(self.slots.len(), exponent);
            lemma_distance(self.tail, self.head);
            lemma_next_counter(self.tail);
            assert(self.tail == ((self.head + self.queued()) % counters()) as usize) by {
                if self.tail >= self.head {
                    vstd::arithmetic::div_mod::lemma_small_mod(self.tail as nat, counters() as nat);
                } else {
                    vstd::arithmetic::div_mod::lemma_mod_add_multiples_vanish(
                        self.tail as int,
                        counters(),
                    );
                    vstd::arithmetic::div_mod::lemma_small_mod(self.tail as nat, counters() as nat);
                }
            }
            lemma_slot_after_wrap(self.head, self.queued(), 0, self.slots.len(), exponent);
            assert(position == slot_of(self.head, self.queued(), capacity));
        }
        self.slots[position] = Some(value);
        self.tail = self.tail.wrapping_add(1);
        proof {
            lemma_distance(self.tail, self.head);
            assert(self.queued() == before.queued() + 1);
            assert forall|j: int| 0 <= j < capacity implies (#[trigger] self.slots@[slot_of(
                self.head,
                j,
                capacity,
            )] is Some <==> j < self.queued()) && (j < before.queued() ==> self.slots@[slot_of(
                self.head,
                j,
                capacity,
            )] == before.slots@[slot_of(self.head, j, capacity)]) by {
                assert(before.slots@[slot_of(before.head, j, capacity)] is Some <==> j
                    < before.queued());
                vstd::arithmetic::div_mod::lemma_mod_bound(self.head + j, capacity);
                if j < before.queued() {
                    lemma_slots_differ(self.head, j, before.queued(), capacity);
                } else if j > before.queued() {
                    lemma_slots_differ(self.head, before.queued(), j, capacity);
                }
            }
            assert(self@ =~= before@.pushed(value));
        }
    }

    fn pop(&mut self) -> (value: Option<T>)
        requires
            old(self).wf(),
            old(self)@.contents.len() > 0,
        ensures
            final(self).wf(),
            final(self)@ == old(self)@.popped(),
            value == Some(old(self)@.contents[0]),
    {
        let ghost before = *self;
        let ghost capacity = self.slots@.len() as int;
        let ghost exponent = choose|exponent: nat|
            self.slots@.len() == #[trigger] vstd::arithmetic::power2::pow2(exponent);
        let position: usize = self.position(self.head);
        proof {
            lemma_wraps(self.slots.len(), exponent);
            lemma_distance(self.tail, self.head);
            lemma_next_counter(self.head);
            assert(position == slot_of(self.head, 0, capacity));
            assert(self.slots@[slot_of(self.head, 0, capacity)] is Some);
        }
        let value = self.slots[position].take();
        self.head = self.head.wrapping_add(1);
        proof {
            lemma_distance(self.tail, self.head);
            assert(self.queued() == before.queued() - 1);
            assert(self.head == next_counter(before.head));
            assert forall|j: int| 0 <= j < capacity implies (#[trigger] self.slots@[slot_of(
                self.head,
                j,
                capacity,
            )] is Some <==> j < self.queued()) && (j < self.queued() ==> self.slots@[slot_of(
                self.head,
                j,
                capacity,
            )] == before.slots@[slot_of(before.head, j + 1, capacity)]) by {
                lemma_slot_after_wrap(before.head, 1, j, before.slots.len(), exponent);
                if j + 1 < capacity {
                    assert(before.slots@[slot_of(before.head, j + 1, capacity)] is Some <==> j + 1
                        < before.queued());
                    vstd::arithmetic::div_mod::lemma_mod_bound(before.head + j + 1, capacity);
                    lemma_slots_differ(before.head, 0, j + 1, capacity);
                } else {
                    vstd::arithmetic::div_mod::lemma_mod_add_multiples_vanish(
                        before.head as int,
                        capacity,
                    );
                }
            }
            assert(self@ =~= before@.popped());
        }
        value
    }
}

impl<T> View for Inner<T> {
    type V = QueueView<T>;

    closed spec fn view(&self) -> QueueView<T> {
        QueueView {
            contents: Seq::new(
                self.queued() as nat,
                |i: int| self.slots@[slot_of(self.head, i, self.slots@.len() as int)]->Some_0,
            ),
            capacity: self.slots@.len(),
            sender_closed: self.sender_closed,
            receiver_closed: self.receiver_closed,
        }
    }
}

/// A queue and its two halves, with the usual number of spins.
pub fn bounded_spsc<T>(capacity: usize) -> (made: (Inner<T>, SpscSender, SpscReceiver))
    requires
        0 < capacity <= usize::MAX / 2 + 1,
    ensures
        is_fresh(made.0, capacity),
        made.1.spec_spins() == DEFAULT_SPINS && made.1.spec_failed() == 0,
        made.2.spec_spins() == DEFAULT_SPINS && made.2.spec_failed() == 0,
{
    bounded_spsc_with_spins(capacity, DEFAULT_SPINS)
}

/// A queue and its two halves, which spin `spins` times before they park.
pub fn bounded_spsc_with_spins<T>(capacity: usize, spins: usize) -> (made: (
    Inner<T>,
    SpscSender,
    SpscReceiver,
))
    requires
        0 < capacity <= usize::MAX / 2 + 1,
    ensures
        is_fresh(made.0, capacity),
        made.1.spec_spins() == spins && made.1.spec_failed() == 0,
        made.2.spec_spins() == spins && made.2.spec_failed() == 0,
{
    (Inner::new(capacity), SpscSender { spins, failed: 0 }, SpscReceiver { spins, failed: 0 })
}

/// An open and empty queue, whose capacity is `capacity` rounded up to a power of two.
pub open spec fn is_fresh<T>(queue: Inner<T>, capacity: usize) -> bool {
    &&& queue.wf()
    &&& queue@.contents == Seq::<T>::empty()
    &&& !queue@.sender_closed
    &&& !queue@.receiver_closed
    &&& exists|exponent: nat|
        queue@.capacity == #[trigger] vstd::arithmetic::power2::pow2(exponent)
    &&& capacity <= queue@.capacity < 2 * capacity
}

impl SpscSender {
    /// How many times a blocking send spins before it parks.
    pub closed spec fn spec_spins(self) -> usize {
        self.spins
    }

    /// How many attempts of the current round of a blocking send have failed.
    pub closed spec fn spec_failed(self) -> usize {
        self.failed
    }

    /// The most values that the queue holds.
    pub fn capacity<T>(&self, queue: &Inner<T>) -> (capacity: usize)
        ensures
            capacity == queue@.capacity,
    {
        queue.capacity()
    }

    /// How many values are queued.
    pub fn len<T>(&self, queue: &Inner<T>) -> (len: usize)
        requires
            queue.wf(),
        ensures
            len == queue@.contents.len(),
    {
        queue.len()
    }

    /// Whether nothing is queued.
    pub fn is_empty<T>(&self, queue: &Inner<T>) -> (empty: bool)
        requires
            queue.wf(),
        ensures
            empty == (queue@.contents.len() == 0),
    {
        queue.len() == 0
    }

    /// Whether one of the halves has closed.
    pub fn is_closed<T>(&self, queue: &Inner<T>) -> (closed: bool)
        ensures
            closed == queue@.refuses(),
    {
        queue.sender_closed || queue.receiver_closed
    }

    /// Close this half.
    pub fn close<T>(&self, queue: &mut Inner<T>)
        requires
            old(queue).wf(),
        ensures
            final(queue).wf(),
            final(queue)@ == (QueueView { sender_closed: true, ..old(queue)@ }),
    {
        queue.sender_closed = true;
        assert(queue@ =~= (QueueView { sender_closed: true, ..old(queue)@ }));
    }

    /// Send a value, unless the queue is full or closed.
    pub fn try_send<T>(&self, queue: &mut Inner<T>, value: T) -> (result: Result<
        (),
        TrySendError<T>,
    >)
        requires
            old(queue).wf(),
        ensures
            final(queue).wf(),
            old(queue)@.tried_send(value, final(queue)@, result),
    {
        if queue.sender_closed || queue.receiver_closed {
            return Err(TrySendError::Closed(value));
        }
        if queue.len() == queue.capacity() {
            return Err(TrySendError::Full(value));
        }
        queue.push(value);
        Ok(())
    }

    /// One attempt of a blocking send.
    pub fn send<T>(&mut self, queue: &mut Inner<T>, value: T) -> (step: SendStep<T>)
        requires
            old(queue).wf(),
        ensures
            final(queue).wf(),
            final(self).spec_spins() == old(self).spec_spins(),
            if old(queue)@.refuses() {
                &&& step == SendStep::Closed(SendError(value))
                &&& final(queue)@ == old(queue)@
                &&& final(self).spec_failed() == 0
            } else if old(queue)@.contents.len() == old(queue)@.capacity {
                &&& step == SendStep::Wait(
                    value,
                    pause(old(self).spec_spins(), old(self).spec_failed()),
                )
                &&& final(queue)@ == old(queue)@
                &&& final(self).spec_failed() == failures(
                    old(self).spec_spins(),
                    old(self).spec_failed(),
                )
            } else {
                &&& step is Sent
                &&& final(queue)@ == old(queue)@.pushed(value)
                &&& final(self).spec_failed() == 0
            },
    {
        match self.try_send(queue, value) {
            Ok(()) => {
                self.failed = 0;
                SendStep::Sent
            },
            Err(TrySendError::Closed(value)) => {
                self.failed = 0;
                SendStep::Closed(SendError(value))
            },
            Err(TrySendError::Full(value)) => {
                let wait = fail_attempt(self.spins, &mut self.failed);
                SendStep::Wait(value, wait)
            },
        }
    }
}

impl SpscReceiver {
    /// How many times a blocking receive spins before it parks.
    pub closed spec fn spec_spins(self) -> usize {
        self.spins
    }

    /// How many attempts of the current round of a blocking receive have failed.
    pub closed spec fn spec_failed(self) -> usize {
        self.failed
    }

    /// The most values that the queue holds.
    pub fn capacity<T>(&self, queue: &Inner<T>) -> (capacity: usize)
        ensures
            capacity == queue@.capacity,
    {
        queue.capacity()
    }

    /// How many values are queued.
    pub fn len<T>(&self, queue: &Inner<T>) -> (len: usize)
        requires
            queue.wf(),
        ensures
            len == queue@.contents.len(),
    {
        queue.len()
    }

    /// Whether nothing is queued.
    pub fn is_empty<T>(&self, queue: &Inner<T>) -> (empty: bool)
        requires
            queue.wf(),
        ensures
            empty == (queue@.contents.len() == 0),
    {
        queue.len() == 0
    }

    /// Whether this half has closed, or the other half has and everything was received.
    pub fn is_closed<T>(&self, queue: &Inner<T>) -> (closed: bool)
        requires
            queue.wf(),
        ensures
            closed == (queue@.receiver_closed || (queue@.sender_closed && queue@.contents.len()
                == 0)),
    {
        queue.receiver_closed || (queue.sender_closed && queue.len() == 0)
    }

    /// Close this half.
    pub fn close<T>(&self, queue: &mut Inner<T>)
        requires
            old(queue).wf(),
        ensures
            final(queue).wf(),
            final(queue)@ == (QueueView { receiver_closed: true, ..old(queue)@ }),
    {
        queue.receiver_closed = true;
        assert(queue@ =~= (QueueView { receiver_closed: true, ..old(queue)@ }));
    }

    /// Receive the first value, if there is one.
    pub fn try_recv<T>(&self, queue: &mut Inner<T>) -> (result: Result<T, TryRecvError>)
        requires
            old(queue).wf(),
        ensures
            final(queue).wf(),
            old(queue)@.tried_recv(final(queue)@, result),
    {
        if queue.len() == 0 {
            if queue.sender_closed {
                return Err(TryRecvError::Closed);
            }
            return Err(TryRecvError::Empty);
        }
        match queue.pop() {
            Some(value) => Ok(value),
            None => Err(TryRecvError::Empty),
        }
    }

    /// One attempt of a blocking receive.
    pub fn recv<T>(&mut self, queue: &mut Inner<T>) -> (step: RecvStep<T>)
        requires
            old(queue).wf(),
        ensures
            final(queue).wf(),
            final(self).spec_spins() == old(self).spec_spins(),
            if old(queue)@.contents.len() > 0 {
                &&& step == RecvStep::Received(old(queue)@.contents[0])
                &&& final(queue)@ == old(queue)@.popped()
                &&& final(self).spec_failed() == 0
            } else if old(queue)@.sender_closed {
                &&& step is Closed
                &&& final(queue)@ == old(queue)@
                &&& final(self).spec_failed() == 0
            } else {
                &&& step == RecvStep::<T>::Wait(
                    pause(old(self).spec_spins(), old(self).spec_failed()),
                )
                &&& final(queue)@ == old(queue)@
                &&& final(self).spec_failed() == failures(
                    old(self).spec_spins(),
                    old(self).spec_failed(),
                )
            },
    {
        match self.try_recv(queue) {
            Ok(value) => {
                self.failed = 0;
                RecvStep::Received(value)
            },
            Err(TryRecvError::Closed) => {
                self.failed = 0;
                RecvStep::Closed
            },
            Err(TryRecvError::Empty) => {
                let wait = fail_attempt(self.spins, &mut self.failed);
                RecvStep::Wait(wait)
            },
        }
    }
}

/// A queue never holds more values than its capacity.
pub proof fn queues_are_bounded<T>(queue: Inner<T>)
    requires
        queue.wf(),
    ensures
        queue@.contents.len() <= queue@.capacity,
        exists|exponent: nat|
            queue@.capacity == #[trigger] vstd::arithmetic::power2::pow2(exponent),
{
    lemma_distance(queue.tail, queue.head);
}

proof fn lemma_sent<T>(queue: QueueView<T>, values: Seq<T>)
    ensures
        queue.sent(values) == (QueueView { contents: queue.contents + values, ..queue }),
    decreases values.len(),
{
    if values.len() == 0 {
        assert(queue.contents + values =~= queue.contents);
    } else {
        lemma_sent(queue.pushed(values[0]), values.drop_first());
        assert(queue.contents.push(values[0]) + values.drop_first() =~= queue.contents + values);
    }
}

proof fn lemma_received<T>(queue: QueueView<T>, count: nat)
    requires
        count <= queue.contents.len(),
    ensures
        queue.received(count) == queue.contents.take(count as int),
    decreases count,
{
    if count == 0 {
        assert(queue.contents.take(0) =~= Seq::empty());
    } else {
        lemma_received(queue.popped(), (count - 1) as nat);
        assert(seq![queue.contents[0]] + queue.contents.drop_first().take(count - 1)
            =~= queue.contents.take(count as int));
    }
}

/// Values come out in the order in which they went in, each once: receiving as many values as an
/// empty queue was sent gives those values.
pub proof fn values_come_out_in_order<T>(queue: QueueView<T>, values: Seq<T>)
    requires
        queue.contents == Seq::<T>::empty(),
    ensures
        queue.sent(values).received(values.len()) == values,
        queue.sent(values).contents == values,
{
    lemma_sent(queue, values);
    assert(queue.contents + values =~= values);
    lemma_received(queue.sent(values), values.len());
    assert(values.take(values.len() as int) =~= values);
}

/// A value that was sent to an empty queue is the next one received, and the queue is as before.
pub proof fn receive_undoes_send<T>(
    before: QueueView<T>,
    value: T,
    between: QueueView<T>,
    after: QueueView<T>,
    result: Result<T, TryRecvError>,
)
    requires
        before.contents == Seq::<T>::empty(),
        before.capacity > 0,
        !before.refuses(),
        before.tried_send(value, between, Ok::<(), TrySendError<T>>(())),
        between.tried_recv(after, result),
    ensures
        result == Ok::<T, TryRecvError>(value),
        after == before,
{
    assert(after.contents =~= before.contents);
}

/// Closing the sending half refuses every later value, and loses none of those that are queued: they
/// are received first, and only then is the queue reported as closed.
pub proof fn closing_drains<T>(
    queue: QueueView<T>,
    value: T,
    refused: QueueView<T>,
    outcome: Result<(), TrySendError<T>>,
    after: QueueView<T>,
    result: Result<T, TryRecvError>,
)
    requires
        queue.sender_closed,
        queue.tried_send(value, refused, outcome),
        queue.tried_recv(after, result),
    ensures
        outcome == Err::<(), TrySendError<T>>(TrySendError::Closed(value)),
        refused == queue,
        queue.contents.len() > 0 ==> result == Ok::<T, TryRecvError>(queue.contents[0]),
        queue.contents.len() == 0 ==> result == Err::<T, TryRecvError>(TryRecvError::Closed),
        after.sender_closed,
{
}

/// A blocking operation parks once in every round of one more attempt than there are spins.
pub proof fn rounds_end_with_a_park(spins: usize, failed: usize)
    requires
        failed <= spins,
    ensures
        failures(spins, failed) <= spins,
        (pause(spins, failed) is Park || pause(spins, failed) is SpinAndPark) <==> failed == spins,
        failures(spins, failed) == 0 <==> failed == spins,
{
}

} // verus!
