//! The protocol of the fair read-write lock.
//!
//! The lock's state is one word: bits 0 to 29 count the readers, bit 30 is
//! the writer flag. A reader may join while no writer holds the lock; a
//! writer may enter only when the lock is free. A ticket counter and a
//! serving counter make acquirers take their turn in arrival order.
//!
//! The step functions below say how the state word changes; a concurrent
//! lock applies them with compare-and-swap, and `FairRawRwLock` applies
//! them to a lock it owns.

use vstd::prelude::*;

pub mod instrumented;
pub mod timed;

verus! {

/// The bits that count readers.
pub const READER_MASK: usize = 1073741823;

/// The writer flag.
pub const WRITER_BIT: usize = 1073741824;

/// A state word uses only the reader bits and the writer flag.
pub open spec fn state_wf(state: usize) -> bool {
    state < 2147483648
}

/// The number of readers a state word counts.
pub open spec fn readers(state: usize) -> int {
    state as int % 1073741824
}

/// Whether a state word has the writer flag.
pub open spec fn writer_held(state: usize) -> bool {
    state >= 1073741824
}

/// No writer holds the lock together with a reader.
pub open spec fn exclusive(state: usize) -> bool {
    writer_held(state) ==> readers(state) == 0
}

proof fn lemma_bits(state: usize)
    requires
        state < 2147483648,
    ensures
        (state & WRITER_BIT != 0) == (state >= 1073741824),
        state & READER_MASK == state % 1073741824,
        state < 1073741824 ==> state | WRITER_BIT == state + 1073741824,
        state >= 1073741824 ==> state & !WRITER_BIT == state - 1073741824,
        state < 1073741824 ==> state & !WRITER_BIT == state,
{
    assert((state & 1073741824usize != 0) == (state >= 1073741824)) by (bit_vector)
        requires
            state < 2147483648usize,
    ;
    assert(state & 1073741823usize == state % 1073741824) by (bit_vector)
        requires
            state < 2147483648usize,
    ;
    assert(state < 1073741824 ==> state | 1073741824usize == state + 1073741824) by (bit_vector);
    assert(state >= 1073741824 && state < 2147483648usize ==> state & !1073741824usize == state
        - 1073741824) by (bit_vector);
    assert(state < 1073741824 ==> state & !1073741824usize == state) by (bit_vector);
}

/// The state after a reader joins; `None` while a writer holds the lock.
pub fn shared_step(state: usize) -> (r: Option<usize>)
    requires
        state_wf(state),
        readers(state) < READER_MASK,
    ensures
        writer_held(state) ==> r is None,
        !writer_held(state) ==> r == Some((state + 1) as usize),
        r matches Some(s) ==> state_wf(s) && !writer_held(s) && readers(s) == readers(state) + 1,
{
    proof {
        lemma_bits(state);
    }
    if state & WRITER_BIT == 0 {
        Some(state + 1)
    } else {
        None
    }
}

/// The state after a reader leaves.
pub fn unshared_step(state: usize) -> (r: usize)
    requires
        state_wf(state),
        readers(state) > 0,
    ensures
        r == state - 1,
        state_wf(r),
        writer_held(r) == writer_held(state),
        readers(r) == readers(state) - 1,
{
    state - 1
}

/// The state after a writer enters; `None` unless the lock is free.
pub fn exclusive_step(state: usize) -> (r: Option<usize>)
    requires
        state_wf(state),
    ensures
        (readers(state) == 0 && !writer_held(state)) ==> r == Some(WRITER_BIT),
        !(readers(state) == 0 && !writer_held(state)) ==> r is None,
        r matches Some(s) ==> state_wf(s) && writer_held(s) && readers(s) == 0,
{
    proof {
        lemma_bits(state);
    }
    if state & READER_MASK != 0 || state & WRITER_BIT != 0 {
        None
    } else {
        Some(state | WRITER_BIT)
    }
}

/// The state after the writer leaves: the writer flag cleared.
pub fn unexclusive_step(state: usize) -> (r: usize)
    requires
        state_wf(state),
    ensures
        state_wf(r),
        !writer_held(r),
        readers(r) == readers(state),
        writer_held(state) ==> r == state - WRITER_BIT,
        !writer_held(state) ==> r == state,
{
    proof {
        lemma_bits(state);
    }
    state & !WRITER_BIT
}

/// A fair raw read-write lock: the state word with its ticket and serving
/// counters.
pub struct FairRawRwLock {
    state: usize,
    ticket: usize,
    serving: usize,
}

impl FairRawRwLock {
    /// The state word.
    pub closed spec fn spec_state(&self) -> usize {
        self.state
    }

    /// The next ticket to hand out.
    pub closed spec fn spec_ticket(&self) -> usize {
        self.ticket
    }

    /// Well-formedness: a valid state word in which no writer holds the lock
    /// together with a reader, and every ticket handed out has been served.
    pub closed spec fn wf(&self) -> bool {
        &&& state_wf(self.state)
        &&& exclusive(self.state)
        &&& self.serving == self.ticket
    }

    /// An unlocked lock.
    pub fn new() -> (r: Self)
        ensures
            r.wf(),
            r.spec_state() == 0,
            r.spec_ticket() == 0,
    {
        FairRawRwLock { state: 0, ticket: 0, serving: 0 }
    }

    /// Takes a ticket, waits for its turn, and joins as a reader. No writer
    /// may hold the lock: nothing here could release it.
    pub fn lock_shared(&mut self)
        requires
            old(self).wf(),
            !writer_held(old(self).spec_state()),
            readers(old(self).spec_state()) < READER_MASK,
        ensures
            final(self).wf(),
            final(self).spec_state() == old(self).spec_state() + 1,
            readers(final(self).spec_state()) == readers(old(self).spec_state()) + 1,
            !writer_held(final(self).spec_state()),
            final(self).spec_ticket() == old(self).spec_ticket().wrapping_add(1),
    {
        let my_ticket = self.ticket;
        self.ticket = self.ticket.wrapping_add(1);
        if self.serving == my_ticket {
            match shared_step(self.state) {
                Some(next) => {
                    self.state = next;
                },
                None => {},
            }
        }
        self.serving = self.serving.wrapping_add(1);
    }

    /// Joins as a reader if no writer holds the lock.
    pub fn try_lock_shared(&mut self) -> (r: bool)
        requires
            old(self).wf(),
            readers(old(self).spec_state()) < READER_MASK,
        ensures
            final(self).wf(),
            r == !writer_held(old(self).spec_state()),
            r ==> final(self).spec_state() == old(self).spec_state() + 1,
            !r ==> final(self).spec_state() == old(self).spec_state(),
            final(self).spec_ticket() == old(self).spec_ticket(),
    {
        match shared_step(self.state) {
            Some(next) => {
                self.state = next;
                true
            },
            None => false,
        }
    }

    /// Leaves as a reader.
    pub fn unlock_shared(&mut self)
        requires
            old(self).wf(),
            readers(old(self).spec_state()) > 0,
        ensures
            final(self).wf(),
            final(self).spec_state() == old(self).spec_state() - 1,
            final(self).spec_ticket() == old(self).spec_ticket(),
    {
        self.state = unshared_step(self.state);
    }

    /// Takes a ticket, waits for its turn, and enters as the writer. The
    /// lock must be free: nothing here could release it.
    pub fn lock_exclusive(&mut self)
        requires
            old(self).wf(),
            old(self).spec_state() == 0,
        ensures
            final(self).wf(),
            final(self).spec_state() == WRITER_BIT,
            final(self).spec_ticket() == old(self).spec_ticket().wrapping_add(1),
    {
        let my_ticket = self.ticket;
        self.ticket = self.ticket.wrapping_add(1);
        if self.serving == my_ticket {
            match exclusive_step(self.state) {
                Some(next) => {
                    self.state = next;
                },
                None => {},
            }
        }
        self.serving = self.serving.wrapping_add(1);
    }

    /// Enters as the writer if the lock is free.
    pub fn try_lock_exclusive(&mut self) -> (r: bool)
        requires
            old(self).wf(),
        ensures
            final(self).wf(),
            r == (old(self).spec_state() == 0),
            r ==> final(self).spec_state() == WRITER_BIT,
            !r ==> final(self).spec_state() == old(self).spec_state(),
            final(self).spec_ticket() == old(self).spec_ticket(),
    {
        match exclusive_step(self.state) {
            Some(next) => {
                self.state = next;
                true
            },
            None => false,
        }
    }

    /// Leaves as the writer.
    pub fn unlock_exclusive(&mut self)
        requires
            old(self).wf(),
        ensures
            final(self).wf(),
            !writer_held(final(self).spec_state()),
            readers(final(self).spec_state()) == readers(old(self).spec_state()),
            final(self).spec_ticket() == old(self).spec_ticket(),
    {
        self.state = unexclusive_step(self.state);
    }
}

} // verus!
