//! The write-buffered event log, with true ring semantics.
//!
//! `write_index` counts bytes written over the buffer's whole life and never
//! resets; `drain_index` counts the bytes the flush cycle has consumed. A
//! record written at logical offset `w` sits at physical offset
//! `w % capacity`. The ring is full only when `write_index - drain_index`
//! would exceed the capacity, so the buffer keeps accepting events after it
//! has wrapped.
//!
//! Until the database is ready, events go to a separate emergency buffer,
//! which `promote_emergency` hands over once it is.

use vstd::prelude::*;
use crate::memory::error::BufferError;
use crate::ring_buffer::lemma_mod_distinct;

verus! {

/// The size in bytes of one event record as laid out in the shared region.
pub const EVENT_RECORD_SIZE: usize = 72;

/// The size in bytes of the emergency buffer (64 KiB).
pub const EMERGENCY_BUFFER_BYTES: usize = 65_536;

/// A single event record. Fixed-size, so that a slot is claimed by advancing
/// a byte offset.
#[derive(Debug, Clone, Copy)]
pub struct EventRecord {
    /// Discriminates the ACCESS and USE tiers.
    pub event_type: u8,
    /// The slot that was accessed or violated.
    pub slot_id: u64,
    /// The agent that made the access attempt.
    pub agent_id: u64,
    /// Lamport timestamp of the event.
    pub lamport_ts: u64,
    /// Operation attempted: 0=READ, 1=WRITE, 2=APPEND, 3=COMPUTE.
    pub operation: u8,
    /// For USE events: index into the traceback string table (0 for ACCESS).
    pub traceback_ref: u32,
    /// The ACCESS event that preceded this USE event, by Lamport timestamp.
    pub access_event_ref: u64,
    /// 1 if the event waits in the emergency buffer for promotion.
    pub promotion_pending: u8,
    /// Padding to the fixed size.
    pub _pad: [u8; 21],
}

/// Every field of the record is zero.
pub open spec fn is_blank(r: EventRecord) -> bool {
    &&& r.event_type == 0
    &&& r.slot_id == 0
    &&& r.agent_id == 0
    &&& r.lamport_ts == 0
    &&& r.operation == 0
    &&& r.traceback_ref == 0
    &&& r.access_event_ref == 0
    &&& r.promotion_pending == 0
    &&& forall|i: int| 0 <= i < 21 ==> #[trigger] r._pad@[i] == 0
}

/// An all-zero record, the content of a slot never written.
fn blank_record() -> (r: EventRecord)
    ensures
        is_blank(r),
{
    EventRecord {
        event_type: 0,
        slot_id: 0,
        agent_id: 0,
        lamport_ts: 0,
        operation: 0,
        traceback_ref: 0,
        access_event_ref: 0,
        promotion_pending: 0,
        _pad: [0u8; 21],
    }
}

/// The byte offset `k * size` of a ring of `n` records of `size` bytes lies in
/// record slot `k % n`.
proof fn lemma_slot_of(k: int, n: int)
    requires
        0 <= k,
        0 < n,
    ensures
        ((k * (EVENT_RECORD_SIZE as int)) % (n * (EVENT_RECORD_SIZE as int))) / (EVENT_RECORD_SIZE as int)
            == k % n,
        0 <= k % n < n,
{
    let s = EVENT_RECORD_SIZE as int;
    let q = k / n;
    let r = k % n;
    vstd::arithmetic::div_mod::lemma_fundamental_div_mod(k, n);
    vstd::arithmetic::div_mod::lemma_mod_bound(k, n);
    assert(k * s == q * (n * s) + r * s) by (nonlinear_arith)
        requires
            k == n * q + r,
    ;
    assert(0 <= r * s < n * s) by (nonlinear_arith)
        requires
            0 <= r < n,
            s == 72,
    ;
    vstd::arithmetic::div_mod::lemma_fundamental_div_mod_converse(k * s, n * s, q, r * s);
    vstd::arithmetic::div_mod::lemma_div_multiples_vanish(r, s);
    assert(r * s == s * r) by (nonlinear_arith);
}

/// A record with its promotion flag cleared.
pub open spec fn clear_flag(r: EventRecord) -> EventRecord {
    EventRecord {
        event_type: r.event_type,
        slot_id: r.slot_id,
        agent_id: r.agent_id,
        lamport_ts: r.lamport_ts,
        operation: r.operation,
        traceback_ref: r.traceback_ref,
        access_event_ref: r.access_event_ref,
        promotion_pending: 0,
        _pad: r._pad,
    }
}

/// Records with their promotion flags cleared.
pub open spec fn cleared(s: Seq<EventRecord>) -> Seq<EventRecord> {
    Seq::new(s.len(), |i: int| clear_flag(s[i]))
}

/// How many of `wanted` records fit into a ring of `capacity` bytes that
/// holds `pending` records.
pub open spec fn room(capacity: int, pending: int, wanted: int) -> int {
    let free = capacity / (EVENT_RECORD_SIZE as int) - pending;
    if wanted < free {
        wanted
    } else {
        free
    }
}

/// The write-buffered event log.
///
/// Fast path: claim the next record's bytes and copy the record in.
pub struct EventLogBuffer {
    ring: Vec<EventRecord>,
    capacity: usize,
    write_index: usize,
    drain_index: usize,
    emergency: Vec<EventRecord>,
    sqlite_ready: bool,
}

impl EventLogBuffer {
    /// Well-formedness: positions are whole records, the undrained bytes fit
    /// in the ring, and the emergency records fit in the emergency buffer.
    pub closed spec fn wf(&self) -> bool {
        &&& self.capacity % EVENT_RECORD_SIZE == 0
        &&& self.ring@.len() == self.capacity / EVENT_RECORD_SIZE
        &&& self.write_index % EVENT_RECORD_SIZE == 0
        &&& self.drain_index % EVENT_RECORD_SIZE == 0
        &&& self.drain_index <= self.write_index
        &&& self.write_index - self.drain_index <= self.capacity
        &&& self.emergency@.len() * EVENT_RECORD_SIZE <= EMERGENCY_BUFFER_BYTES
    }

    /// The records written and not yet drained, in write order.
    pub closed spec fn pending(&self) -> Seq<EventRecord> {
        let n = self.ring@.len() as int;
        let d = self.drain_index as int / EVENT_RECORD_SIZE as int;
        Seq::new(
            ((self.write_index - self.drain_index) / EVENT_RECORD_SIZE as int) as nat,
            |i: int| self.ring@[(d + i) % n],
        )
    }

    /// The records in the emergency buffer, in write order.
    pub closed spec fn emergency_records(&self) -> Seq<EventRecord> {
        self.emergency@
    }

    /// The logical write offset in bytes.
    pub closed spec fn spec_write_position(&self) -> usize {
        self.write_index
    }

    /// The logical drain offset in bytes.
    pub closed spec fn spec_drain_position(&self) -> usize {
        self.drain_index
    }

    /// The ring's capacity in bytes.
    pub closed spec fn spec_capacity(&self) -> usize {
        self.capacity
    }

    /// Whether the database is ready, so that events go to the ring.
    pub closed spec fn spec_sqlite_ready(&self) -> bool {
        self.sqlite_ready
    }

    /// Creates the buffer over a ring of `capacity` bytes, with both positions
    /// at zero and an empty emergency buffer.
    ///
    /// `capacity` must be a whole number of records, so that a record never
    /// straddles the ring boundary.
    pub fn from_mmap(capacity: usize, sqlite_ready: bool) -> (r: Self)
        requires
            capacity % EVENT_RECORD_SIZE == 0,
        ensures
            r.wf(),
            r.spec_capacity() == capacity,
            r.spec_write_position() == 0,
            r.spec_drain_position() == 0,
            r.pending() == Seq::<EventRecord>::empty(),
            r.emergency_records() == Seq::<EventRecord>::empty(),
            r.spec_sqlite_ready() == sqlite_ready,
    {
        let n = capacity / EVENT_RECORD_SIZE;
        let mut ring: Vec<EventRecord> = Vec::with_capacity(n);
        let mut k: usize = 0;
        while k < n
            invariant
                k <= n,
                ring@.len() == k,
            decreases n - k,
        {
            ring.push(blank_record());
            k = k + 1;
        }
        let r = EventLogBuffer {
            ring,
            capacity,
            write_index: 0,
            drain_index: 0,
            emergency: Vec::new(),
            sqlite_ready,
        };
        assert(r.pending() =~= Seq::<EventRecord>::empty());
        r
    }

    /// Marks the database as ready or not. While it is not, events go to
    /// the emergency buffer.
    pub fn set_sqlite_ready(&mut self, ready: bool)
        requires
            old(self).wf(),
        ensures
            final(self).wf(),
            final(self).spec_sqlite_ready() == ready,
            final(self).pending() == old(self).pending(),
            final(self).emergency_records() == old(self).emergency_records(),
            final(self).spec_write_position() == old(self).spec_write_position(),
            final(self).spec_drain_position() == old(self).spec_drain_position(),
            final(self).spec_capacity() == old(self).spec_capacity(),
    {
        self.sqlite_ready = ready;
    }

    /// Whether the database is ready.
    pub fn is_sqlite_ready(&self) -> (r: bool)
        ensures
            r == self.spec_sqlite_ready(),
    {
        self.sqlite_ready
    }

    /// Appends a record.
    ///
    /// While the database is not ready the record goes to the emergency
    /// buffer; `Err(Full)` when that has no room for it. Otherwise it goes to
    /// the ring; `Err(Full)` when the undrained bytes plus the record would
    /// exceed the capacity.
    ///
    /// Returns the logical byte offset at which the record was written.
    pub fn append(&mut self, event: &EventRecord) -> (r: Result<usize, BufferError>)
        requires
            old(self).wf(),
            old(self).spec_sqlite_ready() ==> old(self).spec_write_position() + EVENT_RECORD_SIZE
                <= usize::MAX,
        ensures
            final(self).wf(),
            final(self).spec_capacity() == old(self).spec_capacity(),
            final(self).spec_sqlite_ready() == old(self).spec_sqlite_ready(),
            final(self).spec_drain_position() == old(self).spec_drain_position(),
            !old(self).spec_sqlite_ready() ==> {
                &&& final(self).pending() == old(self).pending()
                &&& final(self).spec_write_position() == old(self).spec_write_position()
                &&& if (old(self).emergency_records().len() + 1) * EVENT_RECORD_SIZE
                    > EMERGENCY_BUFFER_BYTES {
                    &&& r == Err::<usize, BufferError>(BufferError::Full)
                    &&& final(self).emergency_records() == old(self).emergency_records()
                } else {
                    &&& r == Ok::<usize, BufferError>(
                        (old(self).emergency_records().len() * EVENT_RECORD_SIZE) as usize,
                    )
                    &&& final(self).emergency_records() == old(self).emergency_records().push(
                        *event,
                    )
                }
            },
            old(self).spec_sqlite_ready() ==> {
                &&& final(self).emergency_records() == old(self).emergency_records()
                &&& if old(self).spec_write_position() - old(self).spec_drain_position()
                    + EVENT_RECORD_SIZE > old(self).spec_capacity() {
                    &&& r == Err::<usize, BufferError>(BufferError::Full)
                    &&& final(self).pending() == old(self).pending()
                    &&& final(self).spec_write_position() == old(self).spec_write_position()
                } else {
                    &&& r == Ok::<usize, BufferError>(old(self).spec_write_position())
                    &&& final(self).pending() == old(self).pending().push(*event)
                    &&& final(self).spec_write_position() == old(self).spec_write_position()
                        + EVENT_RECORD_SIZE
                }
            },
    {
        if !self.sqlite_ready {
            return self.append_to_emergency(event);
        }
        let event_size = EVENT_RECORD_SIZE;
        let write = self.write_index;
        let drain = self.drain_index;
        let undrained = write - drain;
        if self.capacity < event_size || undrained > self.capacity - event_size {
            return Err(BufferError::Full);
        }
        let claimed = write;
        let phys_offset = claimed % self.capacity;
        let slot = phys_offset / event_size;
        let ghost n = self.ring@.len() as int;
        let ghost dk = drain as int / 72;
        let ghost m = (undrained as int) / 72;
        let ghost old_pending = self.pending();
        proof {
            assert(self.capacity as int == n * 72);
            assert(claimed as int == (dk + m) * 72);
            lemma_slot_of(dk + m, n);
            assert(slot as int == (dk + m) % n);
            assert(m < n);
        }
        self.ring.set(slot, *event);
        self.write_index = claimed + event_size;
        proof {
            assert forall|i: int| 0 <= i < m implies #[trigger] self.ring@[(dk + i) % n]
                == old_pending[i] by {
                lemma_mod_distinct(dk, i, m, n);
            }
            assert(self.pending() =~= old_pending.push(*event));
        }
        Ok(claimed)
    }

    /// Appends a record to the emergency buffer; `Err(Full)` when it has no
    /// room for it.
    fn append_to_emergency(&mut self, event: &EventRecord) -> (r: Result<usize, BufferError>)
        requires
            old(self).wf(),
        ensures
            final(self).wf(),
            final(self).pending() == old(self).pending(),
            final(self).spec_write_position() == old(self).spec_write_position(),
            final(self).spec_drain_position() == old(self).spec_drain_position(),
            final(self).spec_capacity() == old(self).spec_capacity(),
            final(self).spec_sqlite_ready() == old(self).spec_sqlite_ready(),
            if (old(self).emergency_records().len() + 1) * EVENT_RECORD_SIZE
                > EMERGENCY_BUFFER_BYTES {
                &&& r == Err::<usize, BufferError>(BufferError::Full)
                &&& final(self).emergency_records() == old(self).emergency_records()
            } else {
                &&& r == Ok::<usize, BufferError>(
                    (old(self).emergency_records().len() * EVENT_RECORD_SIZE) as usize,
                )
                &&& final(self).emergency_records() == old(self).emergency_records().push(*event)
            },
    {
        let event_size = EVENT_RECORD_SIZE;
        let max_emergency = EMERGENCY_BUFFER_BYTES;
        let current = self.emergency.len() * event_size;
        if current + event_size > max_emergency {
            return Err(BufferError::Full);
        }
        let ghost old_pending = self.pending();
        self.emergency.push(*event);
        assert(self.pending() =~= old_pending);
        Ok(current)
    }

    /// Takes every record written since the last drain, in write order, and
    /// moves the drain position up to the write position.
    pub fn drain(&mut self) -> (r: Vec<EventRecord>)
        requires
            old(self).wf(),
        ensures
            final(self).wf(),
            r@ == old(self).pending(),
            final(self).pending() == Seq::<EventRecord>::empty(),
            final(self).spec_drain_position() == old(self).spec_write_position(),
            final(self).spec_write_position() == old(self).spec_write_position(),
            final(self).emergency_records() == old(self).emergency_records(),
            final(self).spec_capacity() == old(self).spec_capacity(),
            final(self).spec_sqlite_ready() == old(self).spec_sqlite_ready(),
    {
        let event_size = EVENT_RECORD_SIZE;
        let write = self.write_index;
        let drain = self.drain_index;
        if write == drain {
            assert(self.pending() =~= Seq::<EventRecord>::empty());
            return Vec::new();
        }
        let undrained_bytes = write - drain;
        let record_count = undrained_bytes / event_size;
        let mut records: Vec<EventRecord> = Vec::with_capacity(record_count);
        let ghost n = self.ring@.len() as int;
        let ghost dk = drain as int / 72;
        let ghost pend = self.pending();
        let mut read_logical = drain;
        while read_logical < write
            invariant
                self.wf(),
                self.write_index == write,
                self.drain_index == drain,
                pend == self.pending(),
                n == self.ring@.len(),
                dk == drain as int / 72,
                event_size == 72,
                drain <= read_logical <= write,
                read_logical % 72 == 0,
                records@ == pend.take((read_logical - drain) / 72),
            decreases write - read_logical,
        {
            let ghost j = (read_logical - drain) as int / 72;
            proof {
                assert(self.capacity as int == n * 72);
                assert(n > 0);
                assert(read_logical as int == (dk + j) * 72);
                lemma_slot_of(dk + j, n);
            }
            let phys = read_logical % self.capacity;
            let record = self.ring[phys / event_size];
            records.push(record);
            read_logical = read_logical + event_size;
            proof {
                assert(records@ =~= pend.take((read_logical - drain) / 72));
            }
        }
        self.drain_index = write;
        assert(self.pending() =~= Seq::<EventRecord>::empty());
        assert(records@ =~= pend);
        records
    }

    /// Promotes the emergency buffer: empties it and returns its records,
    /// as stored and in write order. Once the database is ready, each record
    /// is also queued in the ring, in order and with its promotion flag
    /// cleared, as far as the ring has room; a record for which there is no
    /// room is not queued, but it is still among the records returned to the
    /// caller. Called first once the database is ready, so that no event
    /// written before then is lost.
    pub fn promote_emergency(&mut self) -> (r: Vec<EventRecord>)
        requires
            old(self).wf(),
            old(self).spec_write_position() + old(self).emergency_records().len() * EVENT_RECORD_SIZE
                <= usize::MAX,
        ensures
            final(self).wf(),
            r@ == old(self).emergency_records(),
            final(self).emergency_records() == Seq::<EventRecord>::empty(),
            final(self).spec_drain_position() == old(self).spec_drain_position(),
            final(self).spec_capacity() == old(self).spec_capacity(),
            final(self).spec_sqlite_ready() == old(self).spec_sqlite_ready(),
            old(self).spec_sqlite_ready() ==> final(self).pending() == old(self).pending() + cleared(
                r@,
            ).take(room(old(self).spec_capacity() as int, old(self).pending().len() as int, r@.len() as int)),
            !old(self).spec_sqlite_ready() ==> {
                &&& final(self).pending() == old(self).pending()
                &&& final(self).spec_write_position() == old(self).spec_write_position()
            },
    {
        let taken = self.take_emergency();
        if !self.sqlite_ready {
            return taken;
        }
        let ghost promoted = cleared(taken@);
        let ghost start_pending = self.pending();
        let ghost start_write = self.write_index as int;
        let ghost slots = (self.capacity / 72) as int;
        let n = taken.len();
        proof {
            assert(start_pending.len() <= slots);
        }
        let mut i: usize = 0;
        while i < n
            invariant
                self.wf(),
                n == taken@.len(),
                promoted == cleared(taken@),
                taken@ == old(self).emergency_records(),
                slots == self.capacity / 72,
                start_pending.len() <= slots,
                i <= n,
                self.spec_sqlite_ready(),
                self.spec_sqlite_ready() == old(self).spec_sqlite_ready(),
                self.emergency@ == Seq::<EventRecord>::empty(),
                self.spec_capacity() == old(self).spec_capacity(),
                self.spec_drain_position() == old(self).spec_drain_position(),
                start_write == old(self).spec_write_position(),
                start_write + n * 72 <= usize::MAX,
                self.write_index <= start_write + i * 72,
                start_pending == old(self).pending(),
                self.pending() == start_pending + promoted.take(
                    room(self.capacity as int, start_pending.len() as int, i as int),
                ),
            decreases n - i,
        {
            let mut record = taken[i];
            record.promotion_pending = 0;
            proof {
                assert(record == promoted[i as int]);
                assert(self.pending().len() * 72 == self.write_index - self.drain_index);
                assert(self.write_index + 72 <= usize::MAX);
            }
            let ghost before = self.pending();
            let _ = self.append(&record);
            proof {
                let k0 = room(self.capacity as int, start_pending.len() as int, i as int);
                let k1 = room(self.capacity as int, start_pending.len() as int, i + 1);
                if before.len() < slots {
                    assert(k1 == k0 + 1);
                    assert(promoted.take(k1) =~= promoted.take(k0).push(record));
                    assert(self.pending() =~= start_pending + promoted.take(k1));
                } else {
                    assert(k1 == k0);
                }
                assert(self.write_index <= start_write + (i + 1) * 72);
            }
            i = i + 1;
        }
        taken
    }

    /// Empties the emergency buffer and returns its records.
    fn take_emergency(&mut self) -> (r: Vec<EventRecord>)
        requires
            old(self).wf(),
        ensures
            final(self).wf(),
            r@ == old(self).emergency_records(),
            final(self).emergency_records() == Seq::<EventRecord>::empty(),
            final(self).pending() == old(self).pending(),
            final(self).spec_write_position() == old(self).spec_write_position(),
            final(self).spec_drain_position() == old(self).spec_drain_position(),
            final(self).spec_capacity() == old(self).spec_capacity(),
            final(self).spec_sqlite_ready() == old(self).spec_sqlite_ready(),
    {
        let ghost old_pending = self.pending();
        let mut taken: Vec<EventRecord> = Vec::new();
        std::mem::swap(&mut taken, &mut self.emergency);
        assert(self.pending() =~= old_pending);
        taken
    }

    /// The logical write offset in bytes.
    pub fn write_position(&self) -> (r: usize)
        ensures
            r == self.spec_write_position(),
    {
        self.write_index
    }

    /// The logical drain offset in bytes.
    pub fn drain_position(&self) -> (r: usize)
        ensures
            r == self.spec_drain_position(),
    {
        self.drain_index
    }

    /// The number of bytes written and not yet drained.
    pub fn undrained_bytes(&self) -> (r: usize)
        requires
            self.wf(),
        ensures
            r == self.spec_write_position() - self.spec_drain_position(),
            r == self.pending().len() * EVENT_RECORD_SIZE,
            r <= self.spec_capacity(),
            r % EVENT_RECORD_SIZE == 0,
    {
        proof {
            self.lemma_bounds();
        }
        self.write_index - self.drain_index
    }

    /// What every well-formed log keeps: the drain position trails the write
    /// position by whole records, by at most the capacity; the capacity and
    /// both positions are whole records; and the emergency buffer fits.
    pub proof fn lemma_bounds(&self)
        requires
            self.wf(),
        ensures
            self.spec_drain_position() <= self.spec_write_position(),
            self.spec_write_position() - self.spec_drain_position() <= self.spec_capacity(),
            self.spec_capacity() % EVENT_RECORD_SIZE == 0,
            self.spec_write_position() % EVENT_RECORD_SIZE == 0,
            self.spec_drain_position() % EVENT_RECORD_SIZE == 0,
            self.pending().len() * EVENT_RECORD_SIZE == self.spec_write_position()
                - self.spec_drain_position(),
            self.pending().len() <= self.spec_capacity() / EVENT_RECORD_SIZE,
            self.emergency_records().len() * EVENT_RECORD_SIZE <= EMERGENCY_BUFFER_BYTES,
    {
    }
}

} // verus!
