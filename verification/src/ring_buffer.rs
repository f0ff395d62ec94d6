//! Bounded FIFO ring buffers for the event bus.
//!
//! Every buffer keeps its items in a fixed array of `capacity` slots (a power
//! of two). The live items form the window of `count` slots that starts at
//! `start` and wraps around the end of the array. The abstract view of a
//! buffer is the sequence of its items, oldest first.

use vstd::prelude::*;
use vstd::std_specs::cmp::PartialEqSpec;
use crate::{is_pow2, next_power_of_2};

verus! {

/// Default buffer capacity for bounded queues.
pub const DEFAULT_CAPACITY: usize = 1024;

/// Maximum capacity for bounded queues.
pub const MAX_CAPACITY: usize = 16777216;

/// The item held by a slot that is known to be occupied.
pub open spec fn slot_item<T>(slot: Option<T>) -> T {
    match slot {
        Some(x) => x,
        None => arbitrary(),
    }
}

/// The items of a wrapped window of `count` slots beginning at `start`.
pub open spec fn ring_items<T>(slots: Seq<Option<T>>, start: int, count: int) -> Seq<T> {
    Seq::new(count as nat, |i: int| slot_item(slots[(start + i) % (slots.len() as int)]))
}

/// Shared well-formedness of a slot array with a live window.
pub open spec fn ring_wf<T>(slots: Seq<Option<T>>, cap: int, start: int, count: int) -> bool {
    &&& slots.len() == cap
    &&& 0 < cap <= MAX_CAPACITY
    &&& is_pow2(cap as nat)
    &&& 0 <= start < cap
    &&& 0 <= count <= cap
    &&& forall|i: int| 0 <= i < count ==> (#[trigger] slots[(start + i) % cap]) is Some
}

proof fn lemma_ring_push<T>(slots: Seq<Option<T>>, cap: int, start: int, count: int, item: T)
    requires
        ring_wf(slots, cap, start, count),
        count < cap,
    ensures
        ({
            let slots2 = slots.update((start + count) % cap, Some(item));
            &&& ring_wf(slots2, cap, start, count + 1)
            &&& ring_items(slots2, start, count + 1) =~= ring_items(slots, start, count).push(item)
        }),
{
    let idx = (start + count) % cap;
    let slots2 = slots.update(idx, Some(item));
    vstd::arithmetic::div_mod::lemma_mod_bound(start + count, cap);
    assert forall|i: int| 0 <= i < count + 1 implies (#[trigger] slots2[(start + i) % cap]) is Some
        && (i < count ==> slots2[(start + i) % cap] == slots[(start + i) % cap]) by {
        vstd::arithmetic::div_mod::lemma_mod_bound(start + i, cap);
        if i < count {
            lemma_mod_distinct(start, i, count, cap);
        }
    }
    assert forall|i: int| 0 <= i < count + 1 implies #[trigger] ring_items(slots2, start, count + 1)[i]
        == ring_items(slots, start, count).push(item)[i] by {
        assert(slots2[(start + i) % cap] is Some);
    }
}

/// Two offsets from the same start that differ by less than the modulus land
/// in different slots.
pub(crate) proof fn lemma_mod_distinct(s: int, i: int, j: int, m: int)
    requires
        0 <= i < j < m,
        0 <= s,
    ensures
        (s + i) % m != (s + j) % m,
{
    vstd::arithmetic::div_mod::lemma_fundamental_div_mod(s + i, m);
    vstd::arithmetic::div_mod::lemma_fundamental_div_mod(s + j, m);
    vstd::arithmetic::div_mod::lemma_mod_bound(s + i, m);
    vstd::arithmetic::div_mod::lemma_mod_bound(s + j, m);
    if (s + i) % m == (s + j) % m {
        // then m * ((s+j)/m - (s+i)/m) == j - i, which lies strictly between 0 and m
        let d = (s + j) / m - (s + i) / m;
        assert(m * d == j - i) by (nonlinear_arith)
            requires
                s + i == m * ((s + i) / m) + (s + i) % m,
                s + j == m * ((s + j) / m) + (s + j) % m,
                (s + i) % m == (s + j) % m,
                d == (s + j) / m - (s + i) / m,
        ;
        assert(false) by (nonlinear_arith)
            requires
                m * d == j - i,
                0 < j - i < m,
        ;
    }
}

proof fn lemma_ring_pop<T>(slots: Seq<Option<T>>, cap: int, start: int, count: int)
    requires
        ring_wf(slots, cap, start, count),
        count > 0,
    ensures
        ({
            let slots2 = slots.update(start, None);
            let start2 = (start + 1) % cap;
            &&& ring_wf(slots2, cap, start2, count - 1)
            &&& ring_items(slots2, start2, count - 1) =~= ring_items(slots, start, count).drop_first()
            &&& slots[start] == Some(ring_items(slots, start, count)[0])
        }),
{
    let c = cap;
    let s = start;
    let slots2 = slots.update(s, None);
    let start2 = (s + 1) % c;
    lemma_small_mod_int(start, cap);
    assert(slots[(s + 0) % c] is Some);
    if s + 1 < c {
        lemma_small_mod_int(start + 1, cap);
    } else {
        vstd::arithmetic::div_mod::lemma_mod_self_0(c);
    }
    assert forall|i: int| 0 <= i < count - 1 implies (#[trigger] slots2[(start2 + i) % c]) is Some
        && slots2[(start2 + i) % c] == slots[(s + (i + 1)) % c] by {
        if s + 1 == c {
            vstd::arithmetic::div_mod::lemma_mod_add_multiples_vanish(i, c);
        }
        lemma_mod_distinct(s, 0, i + 1, c);
        lemma_small_mod_int(start, cap);
        assert(slots[(s + (i + 1)) % c] is Some);
    }
    assert forall|i: int| 0 <= i < count - 1 implies #[trigger] ring_items(slots2, start2, count - 1)[i]
        == ring_items(slots, s, count)[i + 1] by {
        assert(slots2[(start2 + i) % c] == slots[(s + (i + 1)) % c]);
    }
    vstd::arithmetic::div_mod::lemma_mod_bound(s + 1, c);
}

proof fn lemma_small_mod_int(x: int, m: int)
    requires
        0 <= x < m,
    ensures
        x % m == x,
{
    vstd::arithmetic::div_mod::lemma_small_mod(x as nat, m as nat);
}

proof fn lemma_ring_empty<T>(slots: Seq<Option<T>>, start: int)
    ensures
        ring_items(slots, start, 0) =~= Seq::<T>::empty(),
{
}

/// Builds a slot array of `n` empty slots.
fn empty_slots<T>(n: usize) -> (v: Vec<Option<T>>)
    ensures
        v@.len() == n,
        forall|i: int| 0 <= i < n ==> v@[i] is None,
{
    let mut v: Vec<Option<T>> = Vec::new();
    let mut k: usize = 0;
    while k < n
        invariant
            k <= n,
            v@.len() == k,
            forall|i: int| 0 <= i < k ==> v@[i] is None,
        decreases n - k,
    {
        v.push(None);
        k = k + 1;
    }
    v
}

/// The capacity that a requested size is rounded up to.
pub open spec fn rounded_capacity(requested: nat, cap: nat) -> bool {
    &&& is_pow2(cap)
    &&& cap >= requested
    &&& (cap == 1 || cap / 2 < requested)
}

/// A bounded multi-producer, multi-consumer FIFO ring buffer.
///
/// `push` appends at the back and fails when the buffer is full or closed;
/// `pop` removes from the front and keeps working after `close` until the
/// buffer is drained.
pub struct MpmcRingBuffer<T> {
    slots: Vec<Option<T>>,
    capacity: usize,
    start: usize,
    count: usize,
    closed: bool,
}

impl<T> MpmcRingBuffer<T> {
    /// The items currently in the buffer, oldest first.
    pub closed spec fn items(&self) -> Seq<T> {
        ring_items(self.slots@, self.start as int, self.count as int)
    }

    /// The number of slots of the buffer.
    pub closed spec fn spec_capacity(&self) -> nat {
        self.capacity as nat
    }

    /// Whether the buffer has been closed for writing.
    pub closed spec fn spec_closed(&self) -> bool {
        self.closed
    }

    pub closed spec fn wf(&self) -> bool {
        &&& ring_wf(self.slots@, self.capacity as int, self.start as int, self.count as int)
    }

    /// Creates a new ring buffer with the given capacity.
    ///
    /// The capacity is rounded up to the nearest power of 2.
    pub fn new(capacity: usize) -> (r: Self)
        requires
            0 < capacity <= MAX_CAPACITY,
        ensures
            r.wf(),
            r.items() == Seq::<T>::empty(),
            rounded_capacity(capacity as nat, r.spec_capacity()),
            !r.spec_closed(),
    {
        let cap = next_power_of_2(capacity);
        proof {
            if cap > MAX_CAPACITY {
                // cap / 2 < capacity <= MAX_CAPACITY, and both are powers of two
                lemma_max_capacity_pow2();
                lemma_pow2_gap(cap as nat, MAX_CAPACITY as nat);
            }
        }
        let slots = empty_slots(cap);
        let r = MpmcRingBuffer { slots, capacity: cap, start: 0, count: 0, closed: false };
        proof {
            lemma_ring_empty(r.slots@, 0);
        }
        r
    }

    /// Pushes an item into the buffer.
    ///
    /// Returns `Ok(())` on success, or `Err(item)` if the buffer is full or closed.
    pub fn push(&mut self, item: T) -> (r: Result<(), T>)
        requires
            old(self).wf(),
        ensures
            final(self).wf(),
            final(self).spec_capacity() == old(self).spec_capacity(),
            final(self).spec_closed() == old(self).spec_closed(),
            match r {
                Ok(()) => {
                    &&& !old(self).spec_closed()
                    &&& old(self).items().len() < old(self).spec_capacity()
                    &&& final(self).items() == old(self).items().push(item)
                },
                Err(x) => {
                    &&& x == item
                    &&& (old(self).spec_closed() || old(self).items().len() == old(self).spec_capacity())
                    &&& final(self).items() == old(self).items()
                },
            },
    {
        if self.closed || self.count == self.capacity {
            return Err(item);
        }
        let idx = (self.start + self.count) % self.capacity;
        proof {
            lemma_ring_push(self.slots@, self.capacity as int, self.start as int, self.count as int, item);
        }
        self.slots.set(idx, Some(item));
        self.count = self.count + 1;
        Ok(())
    }

    /// Pops an item from the buffer.
    ///
    /// Returns `Some(item)` if available, or `None` if empty.
    pub fn pop(&mut self) -> (r: Option<T>)
        requires
            old(self).wf(),
        ensures
            final(self).wf(),
            final(self).spec_capacity() == old(self).spec_capacity(),
            final(self).spec_closed() == old(self).spec_closed(),
            match r {
                Some(x) => {
                    &&& old(self).items().len() > 0
                    &&& x == old(self).items()[0]
                    &&& final(self).items() == old(self).items().drop_first()
                },
                None => {
                    &&& old(self).items().len() == 0
                    &&& final(self).items() == old(self).items()
                },
            },
    {
        if self.count == 0 {
            return None;
        }
        proof {
            lemma_ring_pop(self.slots@, self.capacity as int, self.start as int, self.count as int);
        }
        let mut taken: Option<T> = None;
        self.slots.set_and_swap(self.start, &mut taken);
        self.start = (self.start + 1) % self.capacity;
        self.count = self.count - 1;
        taken
    }

    /// Pushes an item, retrying while the buffer is full.
    ///
    /// With exclusive access no consumer can make room, so this requires a
    /// buffer that is open and not full, where the first attempt succeeds.
    pub fn push_spin(&mut self, item: T)
        requires
            old(self).wf(),
            !old(self).spec_closed(),
            old(self).items().len() < old(self).spec_capacity(),
        ensures
            final(self).wf(),
            final(self).spec_capacity() == old(self).spec_capacity(),
            final(self).spec_closed() == old(self).spec_closed(),
            final(self).items() == old(self).items().push(item),
    {
        let r = self.push(item);
        match r {
            Ok(()) => {},
            Err(_) => {},
        }
    }

    /// Pops an item, retrying while the buffer is empty.
    ///
    /// With exclusive access no producer can add an item, so this requires a
    /// non-empty buffer, where the first attempt succeeds.
    pub fn pop_spin(&mut self) -> (r: T)
        requires
            old(self).wf(),
            old(self).items().len() > 0,
        ensures
            final(self).wf(),
            final(self).spec_capacity() == old(self).spec_capacity(),
            final(self).spec_closed() == old(self).spec_closed(),
            r == old(self).items()[0],
            final(self).items() == old(self).items().drop_first(),
    {
        let r = self.pop();
        r.unwrap()
    }

    /// Returns the number of items in the buffer.
    pub fn len(&self) -> (r: usize)
        requires
            self.wf(),
        ensures
            r == self.items().len(),
    {
        self.count
    }

    /// Returns `true` if the buffer is empty.
    pub fn is_empty(&self) -> (r: bool)
        requires
            self.wf(),
        ensures
            r == (self.items().len() == 0),
    {
        self.count == 0
    }

    /// Returns `true` if the buffer is full.
    pub fn is_full(&self) -> (r: bool)
        requires
            self.wf(),
        ensures
            r == (self.items().len() >= self.spec_capacity()),
    {
        self.count >= self.capacity
    }

    /// Returns the capacity of the buffer.
    pub fn capacity(&self) -> (r: usize)
        ensures
            r == self.spec_capacity(),
    {
        self.capacity
    }

    /// Returns the remaining capacity.
    pub fn remaining(&self) -> (r: usize)
        requires
            self.wf(),
        ensures
            r == self.spec_capacity() - self.items().len(),
    {
        self.capacity - self.count
    }

    /// Closes the buffer for writing.
    ///
    /// After closing, pushes fail but pops continue to work until the buffer
    /// is empty.
    pub fn close(&mut self)
        requires
            old(self).wf(),
        ensures
            final(self).wf(),
            final(self).spec_closed(),
            final(self).items() == old(self).items(),
            final(self).spec_capacity() == old(self).spec_capacity(),
    {
        self.closed = true;
    }

    /// Returns `true` if the buffer is closed.
    pub fn is_closed(&self) -> (r: bool)
        ensures
            r == self.spec_closed(),
    {
        self.closed
    }

    /// Clears all items from the buffer.
    pub fn clear(&mut self)
        requires
            old(self).wf(),
        ensures
            final(self).wf(),
            final(self).items().len() == 0,
            final(self).spec_closed() == old(self).spec_closed(),
            final(self).spec_capacity() == old(self).spec_capacity(),
    {
        while self.count > 0
            invariant
                self.wf(),
                self.spec_closed() == old(self).spec_closed(),
                self.spec_capacity() == old(self).spec_capacity(),
            decreases self.items().len(),
        {
            let _ = self.pop();
        }
    }
}

proof fn lemma_pow2_gap(a: nat, b: nat)
    requires
        is_pow2(a),
        is_pow2(b),
        a > b,
    ensures
        a / 2 >= b,
    decreases a,
{
    if b == 1 {
        assert(a >= 2);
    } else {
        assert(a != 1);
        lemma_pow2_gap(a / 2, b / 2);
    }
}

/// Hands out a ring buffer's items one by one, oldest first.
pub struct IntoIter<T> {
    buffer: MpmcRingBuffer<T>,
}

impl<T> IntoIter<T> {
    /// The items not yet handed out, oldest first.
    pub closed spec fn remaining(&self) -> Seq<T> {
        self.buffer.items()
    }

    /// Well-formedness of the buffer being drained.
    pub closed spec fn wf(&self) -> bool {
        self.buffer.wf()
    }

    /// The next item, `None` once all are handed out.
    pub fn next(&mut self) -> (r: Option<T>)
        requires
            old(self).wf(),
        ensures
            final(self).wf(),
            match r {
                Some(x) => {
                    &&& old(self).remaining().len() > 0
                    &&& x == old(self).remaining()[0]
                    &&& final(self).remaining() == old(self).remaining().drop_first()
                },
                None => {
                    &&& old(self).remaining().len() == 0
                    &&& final(self).remaining() == old(self).remaining()
                },
            },
    {
        self.buffer.pop()
    }
}

impl<T> MpmcRingBuffer<T> {
    /// Consumes the buffer into an iterator over its items, oldest first.
    pub fn into_iter(self) -> (r: IntoIter<T>)
        requires
            self.wf(),
        ensures
            r.wf(),
            r.remaining() == self.items(),
    {
        IntoIter { buffer: self }
    }
}

impl<T> Default for MpmcRingBuffer<T> {
    fn default() -> (r: Self)
        ensures
            r.wf(),
            r.items() == Seq::<T>::empty(),
            r.spec_capacity() == DEFAULT_CAPACITY,
            !r.spec_closed(),
    {
        let r = Self::new(DEFAULT_CAPACITY);
        proof {
            lemma_pow2_1024(r.spec_capacity());
        }
        r
    }
}

proof fn lemma_max_capacity_pow2()
    ensures
        is_pow2(MAX_CAPACITY as nat),
{
    reveal_with_fuel(is_pow2, 26);
}

proof fn lemma_pow2_1024(c: nat)
    requires
        rounded_capacity(1024, c),
    ensures
        c == 1024,
{
    reveal_with_fuel(is_pow2, 11);
    assert(is_pow2(1024));
    if c > 1024 {
        lemma_pow2_gap(c, 1024);
    }
}

/// A bounded multi-producer, multi-consumer queue with backpressure counters.
///
/// `push` and `pop_wait` wait for room or for an item; with exclusive access
/// nobody else can make progress, so they require that the first attempt
/// succeeds. The waiting counters are back at their old values whenever a
/// call returns.
pub struct BoundedQueue<T> {
    inner: MpmcRingBuffer<T>,
    waiting_producers: usize,
    waiting_consumers: usize,
}

impl<T> BoundedQueue<T> {
    /// The items currently in the queue, oldest first.
    pub closed spec fn items(&self) -> Seq<T> {
        self.inner.items()
    }

    /// The number of slots of the queue.
    pub closed spec fn spec_capacity(&self) -> nat {
        self.inner.spec_capacity()
    }

    /// Whether the queue has been closed for writing.
    pub closed spec fn spec_closed(&self) -> bool {
        self.inner.spec_closed()
    }

    /// The number of producers and consumers waiting inside a call.
    pub closed spec fn spec_waiting(&self) -> (usize, usize) {
        (self.waiting_producers, self.waiting_consumers)
    }

    pub closed spec fn wf(&self) -> bool {
        self.inner.wf()
    }

    /// Creates a new bounded queue with the given capacity, rounded up to a
    /// power of two.
    pub fn new(capacity: usize) -> (r: Self)
        requires
            0 < capacity <= MAX_CAPACITY,
        ensures
            r.wf(),
            r.items() == Seq::<T>::empty(),
            rounded_capacity(capacity as nat, r.spec_capacity()),
            !r.spec_closed(),
            r.spec_waiting() == (0usize, 0usize),
    {
        BoundedQueue { inner: MpmcRingBuffer::new(capacity), waiting_producers: 0, waiting_consumers: 0 }
    }

    /// Tries to push an item, returning `Err(item)` if full or closed.
    pub fn try_push(&mut self, item: T) -> (r: Result<(), T>)
        requires
            old(self).wf(),
        ensures
            final(self).wf(),
            final(self).spec_capacity() == old(self).spec_capacity(),
            final(self).spec_closed() == old(self).spec_closed(),
            final(self).spec_waiting() == old(self).spec_waiting(),
            match r {
                Ok(()) => {
                    &&& !old(self).spec_closed()
                    &&& old(self).items().len() < old(self).spec_capacity()
                    &&& final(self).items() == old(self).items().push(item)
                },
                Err(x) => {
                    &&& x == item
                    &&& (old(self).spec_closed() || old(self).items().len() == old(self).spec_capacity())
                    &&& final(self).items() == old(self).items()
                },
            },
    {
        self.inner.push(item)
    }

    /// Pushes an item, waiting while the queue is full.
    pub fn push(&mut self, item: T)
        requires
            old(self).wf(),
            !old(self).spec_closed(),
            old(self).items().len() < old(self).spec_capacity(),
            old(self).spec_waiting().0 < usize::MAX,
        ensures
            final(self).wf(),
            final(self).spec_capacity() == old(self).spec_capacity(),
            final(self).spec_closed() == old(self).spec_closed(),
            final(self).spec_waiting() == old(self).spec_waiting(),
            final(self).items() == old(self).items().push(item),
    {
        self.waiting_producers = self.waiting_producers + 1;
        let r = self.inner.push(item);
        match r {
            Ok(()) => {},
            Err(_) => {},
        }
        self.waiting_producers = self.waiting_producers - 1;
    }

    /// Tries to pop an item, returning `None` if empty.
    pub fn try_pop(&mut self) -> (r: Option<T>)
        requires
            old(self).wf(),
        ensures
            final(self).wf(),
            final(self).spec_capacity() == old(self).spec_capacity(),
            final(self).spec_closed() == old(self).spec_closed(),
            final(self).spec_waiting() == old(self).spec_waiting(),
            match r {
                Some(x) => {
                    &&& old(self).items().len() > 0
                    &&& x == old(self).items()[0]
                    &&& final(self).items() == old(self).items().drop_first()
                },
                None => {
                    &&& old(self).items().len() == 0
                    &&& final(self).items() == old(self).items()
                },
            },
    {
        self.inner.pop()
    }

    /// Pops an item, waiting while the queue is empty.
    pub fn pop_wait(&mut self) -> (r: T)
        requires
            old(self).wf(),
            old(self).items().len() > 0,
            old(self).spec_waiting().1 < usize::MAX,
        ensures
            final(self).wf(),
            final(self).spec_capacity() == old(self).spec_capacity(),
            final(self).spec_closed() == old(self).spec_closed(),
            final(self).spec_waiting() == old(self).spec_waiting(),
            r == old(self).items()[0],
            final(self).items() == old(self).items().drop_first(),
    {
        self.waiting_consumers = self.waiting_consumers + 1;
        let r = self.inner.pop();
        self.waiting_consumers = self.waiting_consumers - 1;
        r.unwrap()
    }

    /// Pops an item, giving up after `timeout`.
    ///
    /// With exclusive access the queue cannot change while waiting, so the
    /// answer is the one the first attempt gives.
    pub fn pop_timeout(&mut self, timeout: std::time::Duration) -> (r: Option<T>)
        requires
            old(self).wf(),
            old(self).spec_waiting().1 < usize::MAX,
        ensures
            final(self).wf(),
            final(self).spec_capacity() == old(self).spec_capacity(),
            final(self).spec_closed() == old(self).spec_closed(),
            final(self).spec_waiting() == old(self).spec_waiting(),
            match r {
                Some(x) => {
                    &&& old(self).items().len() > 0
                    &&& x == old(self).items()[0]
                    &&& final(self).items() == old(self).items().drop_first()
                },
                None => {
                    &&& old(self).items().len() == 0
                    &&& final(self).items() == old(self).items()
                },
            },
    {
        self.waiting_consumers = self.waiting_consumers + 1;
        let r = self.inner.pop();
        self.waiting_consumers = self.waiting_consumers - 1;
        r
    }

    /// Returns the number of items in the queue.
    pub fn len(&self) -> (r: usize)
        requires
            self.wf(),
        ensures
            r == self.items().len(),
    {
        self.inner.len()
    }

    /// Returns `true` if the queue is empty.
    pub fn is_empty(&self) -> (r: bool)
        requires
            self.wf(),
        ensures
            r == (self.items().len() == 0),
    {
        self.inner.is_empty()
    }

    /// Returns `true` if the queue is full.
    pub fn is_full(&self) -> (r: bool)
        requires
            self.wf(),
        ensures
            r == (self.items().len() >= self.spec_capacity()),
    {
        self.inner.is_full()
    }

    /// Returns the capacity.
    pub fn capacity(&self) -> (r: usize)
        ensures
            r == self.spec_capacity(),
    {
        self.inner.capacity()
    }

    /// Returns the number of waiting producers.
    pub fn waiting_producers(&self) -> (r: usize)
        ensures
            r == self.spec_waiting().0,
    {
        self.waiting_producers
    }

    /// Returns the number of waiting consumers.
    pub fn waiting_consumers(&self) -> (r: usize)
        ensures
            r == self.spec_waiting().1,
    {
        self.waiting_consumers
    }

    /// Closes the queue.
    pub fn close(&mut self)
        requires
            old(self).wf(),
        ensures
            final(self).wf(),
            final(self).spec_closed(),
            final(self).items() == old(self).items(),
            final(self).spec_capacity() == old(self).spec_capacity(),
            final(self).spec_waiting() == old(self).spec_waiting(),
    {
        self.inner.close();
    }

    /// Returns `true` if the queue is closed.
    pub fn is_closed(&self) -> (r: bool)
        ensures
            r == self.spec_closed(),
    {
        self.inner.is_closed()
    }
}

impl<T> Default for BoundedQueue<T> {
    fn default() -> (r: Self)
        ensures
            r.wf(),
            r.items() == Seq::<T>::empty(),
            r.spec_capacity() == DEFAULT_CAPACITY,
            !r.spec_closed(),
            r.spec_waiting() == (0usize, 0usize),
    {
        BoundedQueue { inner: MpmcRingBuffer::default(), waiting_producers: 0, waiting_consumers: 0 }
    }
}

/// A single-producer, single-consumer FIFO ring buffer.
///
/// It has the same observable behaviour as `MpmcRingBuffer`: `push` fails
/// when full or closed, `pop` drains what is left after `close`.
pub struct SpscRingBuffer<T> {
    ring: MpmcRingBuffer<T>,
}

impl<T> SpscRingBuffer<T> {
    /// The items currently in the buffer, oldest first.
    pub closed spec fn items(&self) -> Seq<T> {
        self.ring.items()
    }

    /// The number of slots of the buffer.
    pub closed spec fn spec_capacity(&self) -> nat {
        self.ring.spec_capacity()
    }

    /// Whether the buffer has been closed for writing.
    pub closed spec fn spec_closed(&self) -> bool {
        self.ring.spec_closed()
    }

    pub closed spec fn wf(&self) -> bool {
        self.ring.wf()
    }

    /// Creates a new SPSC buffer with the given capacity, rounded up to a
    /// power of two.
    pub fn new(capacity: usize) -> (r: Self)
        requires
            0 < capacity <= MAX_CAPACITY,
        ensures
            r.wf(),
            r.items() == Seq::<T>::empty(),
            rounded_capacity(capacity as nat, r.spec_capacity()),
            !r.spec_closed(),
    {
        SpscRingBuffer { ring: MpmcRingBuffer::new(capacity) }
    }

    /// Pushes an item into the buffer.
    ///
    /// Returns `Ok(())` on success, or `Err(item)` if the buffer is full or closed.
    pub fn push(&mut self, item: T) -> (r: Result<(), T>)
        requires
            old(self).wf(),
        ensures
            final(self).wf(),
            final(self).spec_capacity() == old(self).spec_capacity(),
            final(self).spec_closed() == old(self).spec_closed(),
            match r {
                Ok(()) => {
                    &&& !old(self).spec_closed()
                    &&& old(self).items().len() < old(self).spec_capacity()
                    &&& final(self).items() == old(self).items().push(item)
                },
                Err(x) => {
                    &&& x == item
                    &&& (old(self).spec_closed() || old(self).items().len() == old(self).spec_capacity())
                    &&& final(self).items() == old(self).items()
                },
            },
    {
        self.ring.push(item)
    }

    /// Pops an item from the buffer.
    pub fn pop(&mut self) -> (r: Option<T>)
        requires
            old(self).wf(),
        ensures
            final(self).wf(),
            final(self).spec_capacity() == old(self).spec_capacity(),
            final(self).spec_closed() == old(self).spec_closed(),
            match r {
                Some(x) => {
                    &&& old(self).items().len() > 0
                    &&& x == old(self).items()[0]
                    &&& final(self).items() == old(self).items().drop_first()
                },
                None => {
                    &&& old(self).items().len() == 0
                    &&& final(self).items() == old(self).items()
                },
            },
    {
        self.ring.pop()
    }

    /// Returns the number of items in the buffer.
    pub fn len(&self) -> (r: usize)
        requires
            self.wf(),
        ensures
            r == self.items().len(),
    {
        self.ring.len()
    }

    /// Returns `true` if the buffer is empty.
    pub fn is_empty(&self) -> (r: bool)
        requires
            self.wf(),
        ensures
            r == (self.items().len() == 0),
    {
        self.ring.is_empty()
    }

    /// Returns `true` if the buffer is full.
    pub fn is_full(&self) -> (r: bool)
        requires
            self.wf(),
        ensures
            r == (self.items().len() >= self.spec_capacity()),
    {
        self.ring.is_full()
    }

    /// Returns the capacity.
    pub fn capacity(&self) -> (r: usize)
        ensures
            r == self.spec_capacity(),
    {
        self.ring.capacity()
    }

    /// Closes the buffer.
    pub fn close(&mut self)
        requires
            old(self).wf(),
        ensures
            final(self).wf(),
            final(self).spec_closed(),
            final(self).items() == old(self).items(),
            final(self).spec_capacity() == old(self).spec_capacity(),
    {
        self.ring.close();
    }

    /// Returns `true` if closed.
    pub fn is_closed(&self) -> (r: bool)
        ensures
            r == self.spec_closed(),
    {
        self.ring.is_closed()
    }
}

impl<T> Default for SpscRingBuffer<T> {
    fn default() -> (r: Self)
        ensures
            r.wf(),
            r.items() == Seq::<T>::empty(),
            r.spec_capacity() == DEFAULT_CAPACITY,
            !r.spec_closed(),
    {
        SpscRingBuffer { ring: MpmcRingBuffer::default() }
    }
}

/// Trait for events that can be stored in a typed ring buffer.
pub trait Event: Send {
    /// The type discriminator for this event.
    type Type: Copy + Clone + Send + Sync + Eq + std::hash::Hash;

    /// The type of this event, as `event_type` reports it.
    spec fn spec_event_type(&self) -> Self::Type;

    /// Returns the type of this event.
    fn event_type(&self) -> (r: Self::Type)
        ensures
            r == self.spec_event_type(),
    ;
}

/// A slot in the typed ring buffer.
#[derive(Debug)]
pub struct SlotEntry<E: Event> {
    /// Event type discriminator.
    pub event_type: E::Type,
    /// The actual event data.
    pub event: E,
}

/// The test for entries of type `t`.
pub open spec fn has_type<E: Event>(t: E::Type) -> spec_fn(SlotEntry<E>) -> bool {
    |e: SlotEntry<E>| e.event_type.eq_spec(&t)
}

/// The test for entries of a type other than `t`.
pub open spec fn lacks_type<E: Event>(t: E::Type) -> spec_fn(SlotEntry<E>) -> bool {
    |e: SlotEntry<E>| !e.event_type.eq_spec(&t)
}

proof fn lemma_filter_take_step<A>(s: Seq<A>, k: int, f: spec_fn(A) -> bool)
    requires
        0 <= k < s.len(),
    ensures
        s.take(k + 1).filter(f) == if f(s[k]) {
            s.take(k).filter(f).push(s[k])
        } else {
            s.take(k).filter(f)
        },
{
    reveal(Seq::filter);
    assert(s.take(k + 1).drop_last() =~= s.take(k));
    assert(s.take(k + 1).last() == s[k]);
}

/// A ring buffer whose entries carry the type of the event they hold.
pub struct TypedRingBuffer<E: Event> {
    inner: MpmcRingBuffer<SlotEntry<E>>,
}

impl<E: Event> TypedRingBuffer<E> {
    /// The entries currently in the buffer, oldest first.
    pub closed spec fn items(&self) -> Seq<SlotEntry<E>> {
        self.inner.items()
    }

    /// The number of slots of the buffer.
    pub closed spec fn spec_capacity(&self) -> nat {
        self.inner.spec_capacity()
    }

    pub closed spec fn wf(&self) -> bool {
        self.inner.wf() && !self.inner.spec_closed()
    }

    /// Creates a new typed ring buffer.
    pub fn new(capacity: usize) -> (r: Self)
        requires
            0 < capacity <= MAX_CAPACITY,
        ensures
            r.wf(),
            r.items() == Seq::<SlotEntry<E>>::empty(),
            rounded_capacity(capacity as nat, r.spec_capacity()),
    {
        TypedRingBuffer { inner: MpmcRingBuffer::new(capacity) }
    }

    /// Pushes an event into the buffer, tagged with its type.
    ///
    /// Returns the entry back if the buffer is full.
    pub fn push(&mut self, event: E) -> (r: Result<(), SlotEntry<E>>)
        requires
            old(self).wf(),
        ensures
            final(self).wf(),
            final(self).spec_capacity() == old(self).spec_capacity(),
            match r {
                Ok(()) => {
                    &&& old(self).items().len() < old(self).spec_capacity()
                    &&& final(self).items().len() == old(self).items().len() + 1
                    &&& final(self).items().drop_last() == old(self).items()
                    &&& final(self).items().last().event == event
                    &&& final(self).items().last().event_type == event.spec_event_type()
                },
                Err(entry) => {
                    &&& old(self).items().len() == old(self).spec_capacity()
                    &&& entry.event == event
                    &&& final(self).items() == old(self).items()
                },
            },
    {
        let slot = SlotEntry { event_type: event.event_type(), event };
        let r = self.inner.push(slot);
        proof {
            if r is Ok {
                assert(self.inner.items().drop_last() =~= old(self).inner.items());
            }
        }
        r
    }

    /// Pops an entry from the buffer.
    pub fn pop(&mut self) -> (r: Option<SlotEntry<E>>)
        requires
            old(self).wf(),
        ensures
            final(self).wf(),
            final(self).spec_capacity() == old(self).spec_capacity(),
            match r {
                Some(x) => {
                    &&& old(self).items().len() > 0
                    &&& x == old(self).items()[0]
                    &&& final(self).items() == old(self).items().drop_first()
                },
                None => {
                    &&& old(self).items().len() == 0
                    &&& final(self).items() == old(self).items()
                },
            },
    {
        self.inner.pop()
    }

    /// Pops every entry of the given type, oldest first. Entries of other
    /// types stay in the buffer, in their order.
    pub fn pop_by_type(&mut self, event_type: E::Type) -> (r: Vec<SlotEntry<E>>)
        requires
            old(self).wf(),
        ensures
            final(self).wf(),
            final(self).spec_capacity() == old(self).spec_capacity(),
            r@.len() + final(self).items().len() == old(self).items().len(),
            <E::Type as PartialEqSpec>::obeys_eq_spec() ==> {
                &&& r@ == old(self).items().filter(has_type::<E>(event_type))
                &&& final(self).items() == old(self).items().filter(lacks_type::<E>(event_type))
            },
    {
        let ghost s0 = self.items();
        let ghost p = has_type::<E>(event_type);
        let ghost q = lacks_type::<E>(event_type);
        let mut out: Vec<SlotEntry<E>> = Vec::new();
        let mut keep: Vec<SlotEntry<E>> = Vec::new();
        let ghost mut k: int = 0;
        loop
            invariant
                self.wf(),
                self.spec_capacity() == old(self).spec_capacity(),
                s0 == old(self).items(),
                p == has_type::<E>(event_type),
                q == lacks_type::<E>(event_type),
                0 <= k <= s0.len(),
                self.items() == s0.skip(k),
                out@.len() + keep@.len() == k,
                <E::Type as PartialEqSpec>::obeys_eq_spec() ==> {
                    &&& out@ == s0.take(k).filter(p)
                    &&& keep@ == s0.take(k).filter(q)
                },
            ensures
                self.wf(),
                self.spec_capacity() == old(self).spec_capacity(),
                self.items() == Seq::<SlotEntry<E>>::empty(),
                out@.len() + keep@.len() == s0.len(),
                <E::Type as PartialEqSpec>::obeys_eq_spec() ==> {
                    &&& out@ == s0.filter(p)
                    &&& keep@ == s0.filter(q)
                },
            decreases s0.len() - k,
        {
            match self.inner.pop() {
                None => {
                    proof {
                        assert(s0.take(k) =~= s0);
                    }
                    break;
                },
                Some(entry) => {
                    proof {
                        assert(entry == s0[k]);
                        lemma_filter_take_step(s0, k, p);
                        lemma_filter_take_step(s0, k, q);
                        assert(self.items() =~= s0.skip(k + 1));
                        k = k + 1;
                    }
                    if entry.event_type == event_type {
                        out.push(entry);
                    } else {
                        keep.push(entry);
                    }
                },
            }
        }
        let ghost kept = keep@;
        let n = keep.len();
        let mut rev: Vec<SlotEntry<E>> = Vec::new();
        while keep.len() > 0
            invariant
                n == kept.len(),
                rev@.len() + keep@.len() == n,
                keep@ == kept.take(keep@.len() as int),
                forall|j: int| 0 <= j < rev@.len() ==> #[trigger] rev@[j] == kept[n - 1 - j],
            decreases keep@.len(),
        {
            let x = keep.pop().unwrap();
            assert(keep@ =~= kept.take(keep@.len() as int));
            rev.push(x);
        }
        proof {
            assert(self.inner.items().len() == 0);
        }
        while rev.len() > 0
            invariant
                self.wf(),
                self.spec_capacity() == old(self).spec_capacity(),
                n == kept.len(),
                n <= s0.len() <= self.spec_capacity(),
                rev@.len() <= n,
                forall|j: int| 0 <= j < rev@.len() ==> #[trigger] rev@[j] == kept[n - 1 - j],
                self.items() == kept.take(n - rev@.len()),
            decreases rev@.len(),
        {
            let ghost before = self.items();
            let x = rev.pop().unwrap();
            proof {
                assert(x == kept[n - 1 - rev@.len()]);
            }
            let pushed = self.inner.push(x);
            proof {
                assert(pushed is Ok);
                assert(self.items() =~= kept.take(n - rev@.len()));
            }
        }
        proof {
            assert(kept.take(n as int) =~= kept);
        }
        out
    }

    /// Returns the number of events in the buffer.
    pub fn len(&self) -> (r: usize)
        requires
            self.wf(),
        ensures
            r == self.items().len(),
    {
        self.inner.len()
    }

    /// Returns `true` if the buffer is empty.
    pub fn is_empty(&self) -> (r: bool)
        requires
            self.wf(),
        ensures
            r == (self.items().len() == 0),
    {
        self.inner.is_empty()
    }

    /// Returns the capacity.
    pub fn capacity(&self) -> (r: usize)
        ensures
            r == self.spec_capacity(),
    {
        self.inner.capacity()
    }
}

impl<E: Event> Default for TypedRingBuffer<E> {
    fn default() -> (r: Self)
        ensures
            r.wf(),
            r.items() == Seq::<SlotEntry<E>>::empty(),
            r.spec_capacity() == DEFAULT_CAPACITY,
    {
        TypedRingBuffer { inner: MpmcRingBuffer::default() }
    }
}

/// First in, first out over several calls: from an empty buffer, pushing
/// `xs` one by one (each push appends, as `push` ensures on success) and
/// then popping as many times (each pop takes the front, as `pop` ensures on
/// success) returns `xs` in order and leaves the buffer empty. `states` are
/// the buffer's items before and after each call.
pub proof fn lemma_pushes_then_pops<T>(states: Seq<Seq<T>>, xs: Seq<T>, popped: Seq<T>)
    requires
        states.len() == 2 * xs.len() + 1,
        popped.len() == xs.len(),
        states[0] == Seq::<T>::empty(),
        forall|i: int| 0 <= i < xs.len() ==> #[trigger] states[i + 1] == states[i].push(xs[i]),
        forall|i: int|
            0 <= i < xs.len() ==> {
                &&& (#[trigger] states[xs.len() + i]).len() > 0
                &&& popped[i] == states[xs.len() + i][0]
                &&& states[xs.len() + i + 1] == states[xs.len() + i].drop_first()
            },
    ensures
        popped == xs,
        states[2 * xs.len() as int] == Seq::<T>::empty(),
{
    let n = xs.len() as int;
    lemma_pushes_fill(states, xs, n);
    assert(states[n] =~= xs);
    lemma_pops_drain(states, xs, popped, n);
    assert(popped =~= xs);
    assert(states[2 * n] =~= xs.skip(n));
}

proof fn lemma_pushes_fill<T>(states: Seq<Seq<T>>, xs: Seq<T>, k: int)
    requires
        0 <= k <= xs.len(),
        states.len() == 2 * xs.len() + 1,
        states[0] == Seq::<T>::empty(),
        forall|i: int| 0 <= i < xs.len() ==> #[trigger] states[i + 1] == states[i].push(xs[i]),
    ensures
        states[k] == xs.take(k),
    decreases k,
{
    if k == 0 {
        assert(xs.take(0) =~= Seq::<T>::empty());
    } else {
        lemma_pushes_fill(states, xs, k - 1);
        assert(states[(k - 1) + 1] == states[k - 1].push(xs[k - 1]));
        assert(xs.take(k) =~= xs.take(k - 1).push(xs[k - 1]));
    }
}

proof fn lemma_pops_drain<T>(states: Seq<Seq<T>>, xs: Seq<T>, popped: Seq<T>, k: int)
    requires
        0 <= k <= xs.len(),
        states.len() == 2 * xs.len() + 1,
        popped.len() == xs.len(),
        states[xs.len() as int] == xs,
        forall|i: int|
            0 <= i < xs.len() ==> {
                &&& (#[trigger] states[xs.len() + i]).len() > 0
                &&& popped[i] == states[xs.len() + i][0]
                &&& states[xs.len() + i + 1] == states[xs.len() + i].drop_first()
            },
    ensures
        states[xs.len() + k] == xs.skip(k),
        forall|i: int| 0 <= i < k ==> popped[i] == xs[i],
    decreases k,
{
    let n = xs.len() as int;
    if k == 0 {
        assert(xs.skip(0) =~= xs);
    } else {
        lemma_pops_drain(states, xs, popped, k - 1);
        let j = k - 1;
        assert(states[n + j].len() > 0);
        assert(popped[j] == states[n + j][0]);
        assert(states[n + j + 1] == states[n + j].drop_first());
        assert(xs.skip(k) =~= xs.skip(j).drop_first());
    }
}

} // verus!
