//! The 150-slot observation ring: the last 30 seconds of oracle polls.
//!
//! A single `write_index` counts every write; the snapshot claimed as index
//! `k` goes to slot `k % 150`, silently overwriting the oldest. Reads check
//! that the writer did not lap them while they copied a slot.

use vstd::prelude::*;

verus! {

/// Number of slots in the ring.
pub const OBSERVATION_SLOT_COUNT: usize = 150;

/// Number of extra attempts a reader that shares the ring with a writer
/// makes when `seqlock_verdict` finds a copy lapped.
pub const MAX_SEQLOCK_RETRIES: usize = 3;

/// One oracle poll. The two percentages of the shared layout are kept as
/// the bit patterns of their IEEE single-precision values.
#[derive(Debug, Clone, Copy)]
pub struct ObservationSnapshot {
    /// Monotonic clock at the time of the poll, in nanoseconds.
    pub timestamp_ns: u64,
    /// UTF-8 window title, null-padded.
    pub active_window: [u8; 64],
    /// Process name of the active window, null-padded.
    pub active_process: [u8; 32],
    /// PID of the active window's process.
    pub active_pid: u32,
    /// System-wide CPU use in percent, as `f32` bits.
    pub total_cpu_pct_bits: u32,
    /// Physical memory in use, in megabytes.
    pub memory_used_mb: u32,
    /// Total physical memory, in megabytes.
    pub memory_total_mb: u32,
    /// Free disk space on the primary volume in gigabytes, as `f32` bits.
    pub disk_free_gb_bits: u32,
    /// Disk pressure: 0=LOW, 1=MED, 2=HIGH.
    pub disk_pressure: u8,
    /// Network reachability: 0=unreachable, 1=reachable.
    pub network_reachable: u8,
    /// Network round-trip latency in milliseconds; 0 if unreachable.
    pub network_latency_ms: u16,
    /// Clipboard content: 0=EMPTY, 1=TEXT, 2=IMAGE.
    pub clipboard_type: u8,
    /// Alignment padding.
    pub _pad: [u8; 3],
    /// Up to 4 goals active at the time of the snapshot.
    pub goal_ids_active: [u32; 4],
    /// The goal that caused this observation.
    pub causal_goal_id: u32,
    /// The agent that caused this observation.
    pub causal_agent_id: u32,
    /// Number of installed applications at the time of the snapshot.
    pub live_app_count: u32,
    /// Padding to 256 bytes of content.
    pub _struct_pad: [u8; 96],
    /// Cache-line padding against false sharing with the next slot.
    pub _cache_pad: [u8; 64],
}

/// A snapshot that holds zero everywhere: the content of a slot never
/// written.
pub open spec fn is_zero_snapshot(s: ObservationSnapshot) -> bool {
    &&& s.timestamp_ns == 0
    &&& s.active_pid == 0
    &&& s.total_cpu_pct_bits == 0
    &&& s.memory_used_mb == 0
    &&& s.memory_total_mb == 0
    &&& s.disk_free_gb_bits == 0
    &&& s.disk_pressure == 0
    &&& s.network_reachable == 0
    &&& s.network_latency_ms == 0
    &&& s.clipboard_type == 0
    &&& s.causal_goal_id == 0
    &&& s.causal_agent_id == 0
    &&& s.live_app_count == 0
    &&& forall|i: int| 0 <= i < 64 ==> #[trigger] s.active_window@[i] == 0
    &&& forall|i: int| 0 <= i < 32 ==> #[trigger] s.active_process@[i] == 0
    &&& forall|i: int| 0 <= i < 4 ==> #[trigger] s.goal_ids_active@[i] == 0
}

fn zero_snapshot() -> (r: ObservationSnapshot)
    ensures
        is_zero_snapshot(r),
{
    let r = ObservationSnapshot {
        timestamp_ns: 0,
        active_window: [0u8; 64],
        active_process: [0u8; 32],
        active_pid: 0,
        total_cpu_pct_bits: 0,
        memory_used_mb: 0,
        memory_total_mb: 0,
        disk_free_gb_bits: 0,
        disk_pressure: 0,
        network_reachable: 0,
        network_latency_ms: 0,
        clipboard_type: 0,
        _pad: [0u8; 3],
        goal_ids_active: [0u32; 4],
        causal_goal_id: 0,
        causal_agent_id: 0,
        live_app_count: 0,
        _struct_pad: [0u8; 96],
        _cache_pad: [0u8; 64],
    };
    r
}

/// The outcome of a slot read.
#[derive(Debug, Clone, Copy)]
pub enum ReadResult {
    /// The slot was read.
    Read(ObservationSnapshot),
    /// The writer lapped the reader on every attempt.
    RingLapped,
}

/// The 150-slot observation ring.
pub struct ObservationRing {
    slots: Vec<ObservationSnapshot>,
    write_index: usize,
    history: Ghost<Seq<ObservationSnapshot>>,
}

impl ObservationRing {
    /// Every snapshot ever written, oldest first.
    pub closed spec fn history(&self) -> Seq<ObservationSnapshot> {
        self.history@
    }

    /// The content of physical slot `i`.
    pub closed spec fn slot_content(&self, i: int) -> ObservationSnapshot {
        self.slots@[i]
    }

    /// The number of writes so far.
    pub closed spec fn spec_write_index(&self) -> usize {
        self.write_index
    }

    /// Well-formedness: every one of the last 150 writes still sits in its
    /// slot, and a slot never written is zero.
    pub closed spec fn wf(&self) -> bool {
        &&& self.slots@.len() == OBSERVATION_SLOT_COUNT
        &&& self.history@.len() == self.write_index
        &&& forall|k: int|
            #![trigger self.history@[k]]
            self.write_index - 150 <= k < self.write_index && 0 <= k ==> self.slots@[k % 150]
                == self.history@[k]
        &&& forall|j: int|
            #![trigger self.slots@[j]]
            self.write_index <= j < 150 ==> is_zero_snapshot(self.slots@[j])
    }

    /// Creates the ring over 150 zeroed slots, with no write yet.
    pub fn from_mmap() -> (r: Self)
        ensures
            r.wf(),
            r.spec_write_index() == 0,
            r.history() == Seq::<ObservationSnapshot>::empty(),
    {
        let mut slots: Vec<ObservationSnapshot> = Vec::with_capacity(OBSERVATION_SLOT_COUNT);
        let mut k: usize = 0;
        while k < OBSERVATION_SLOT_COUNT
            invariant
                k <= 150,
                slots@.len() == k,
                forall|j: int| 0 <= j < k ==> is_zero_snapshot(#[trigger] slots@[j]),
            decreases 150 - k,
        {
            slots.push(zero_snapshot());
            k = k + 1;
        }
        ObservationRing { slots, write_index: 0, history: Ghost(Seq::empty()) }
    }

    /// Writes a snapshot into the slot of the next write index, overwriting
    /// the snapshot written 150 writes earlier.
    pub fn write(&mut self, snapshot: ObservationSnapshot)
        requires
            old(self).wf(),
            old(self).spec_write_index() < usize::MAX,
        ensures
            final(self).wf(),
            final(self).spec_write_index() == old(self).spec_write_index() + 1,
            final(self).history() == old(self).history().push(snapshot),
    {
        let claimed = self.write_index;
        let physical = claimed % OBSERVATION_SLOT_COUNT;
        self.slots.set(physical, snapshot);
        self.write_index = claimed + 1;
        proof {
            self.history@ = self.history@.push(snapshot);
            let w = self.write_index as int;
            assert forall|k: int|
                #![trigger self.history@[k]]
                w - 150 <= k < w && 0 <= k implies self.slots@[k % 150] == self.history@[k] by {
                if k < claimed {
                    lemma_mod_distinct(k, claimed as int);
                }
            }
            assert forall|j: int| #![trigger self.slots@[j]] w <= j < 150 implies is_zero_snapshot(
                self.slots@[j],
            ) by {
                vstd::arithmetic::div_mod::lemma_small_mod(claimed as nat, 150);
            }
        }
    }

    /// Reads physical slot `slot_index`. A reader that shares the ring with
    /// a writer takes the write index before and after copying the slot and
    /// asks `seqlock_verdict`; here the ring is borrowed, nothing writes
    /// during the read, and the copy is always whole.
    pub fn read(&self, slot_index: usize) -> (r: ReadResult)
        requires
            self.wf(),
            slot_index < OBSERVATION_SLOT_COUNT,
        ensures
            r == ReadResult::Read(self.slot_content(slot_index as int)),
    {
        let pre_index = self.write_index;
        let snapshot = self.slots[slot_index];
        seqlock_verdict(pre_index, self.write_index, snapshot)
    }

    /// The number of writes so far (not reduced modulo 150).
    pub fn current_write_index(&self) -> (r: usize)
        ensures
            r == self.spec_write_index(),
    {
        self.write_index
    }

    /// The `count` most recent snapshots, oldest first. `count` is clamped to
    /// 150 and to the number of writes.
    pub fn recent(&self, count: usize) -> (r: Vec<ObservationSnapshot>)
        requires
            self.wf(),
        ensures
            ({
                let w = self.spec_write_index() as int;
                let c = if count < 150 { count as int } else { 150int };
                let start = if w > c { w - c } else { 0 };
                r@ == self.history().subrange(start, w)
            }),
    {
        let count = if count < OBSERVATION_SLOT_COUNT {
            count
        } else {
            OBSERVATION_SLOT_COUNT
        };
        let write_idx = self.write_index;
        if write_idx == 0 {
            assert(self.history().subrange(0, 0) =~= Seq::<ObservationSnapshot>::empty());
            return Vec::new();
        }
        let total_written = write_idx;
        let start = if total_written > count {
            total_written - count
        } else {
            0
        };
        let actual_count = total_written - start;
        let mut result: Vec<ObservationSnapshot> = Vec::with_capacity(actual_count);
        let mut i = start;
        while i < total_written
            invariant
                self.wf(),
                total_written == self.spec_write_index(),
                count <= 150,
                start <= i <= total_written,
                start == (if total_written > count { total_written - count } else { 0 }),
                result@ == self.history().subrange(start as int, i as int),
            decreases total_written - i,
        {
            let physical = i % OBSERVATION_SLOT_COUNT;
            proof {
                assert(self.history@[i as int] == self.slots@[i as int % 150]);
            }
            match self.read(physical) {
                ReadResult::Read(snapshot) => result.push(snapshot),
                ReadResult::RingLapped => {
                    let snapshot = self.slots[physical];
                    result.push(snapshot);
                },
            }
            i = i + 1;
            proof {
                assert(result@ =~= self.history().subrange(start as int, i as int));
            }
        }
        result
    }

    /// Each of the last 150 snapshots written sits in its slot: the one
    /// claimed as write `k` in slot `k % 150`.
    pub proof fn lemma_slot_holds_write(&self, k: int)
        requires
            self.wf(),
            0 <= k < self.spec_write_index(),
            self.spec_write_index() - 150 <= k,
        ensures
            self.slot_content(k % 150) == self.history()[k],
    {
        assert(self.history@[k] == self.slots@[k % 150]);
    }

    /// A slot that no write has reached yet holds the zero snapshot.
    pub proof fn lemma_unwritten_slot_is_zero(&self, j: int)
        requires
            self.wf(),
            self.spec_write_index() <= j < 150,
        ensures
            is_zero_snapshot(self.slot_content(j)),
    {
        assert(is_zero_snapshot(self.slots@[j]));
    }
}

/// Two writes less than 150 apart go to different slots.
proof fn lemma_mod_distinct(a: int, b: int)
    requires
        0 <= a < b,
        b - a < 150,
    ensures
        a % 150 != b % 150,
{
    crate::ring_buffer::lemma_mod_distinct(a, 0, b - a, 150);
}

/// The verdict on a slot copy taken between two readings of the write
/// index: the copy stands unless the writer advanced the index by a whole
/// lap of the ring or more in between (the index distance is taken
/// wrapping, as the index itself wraps).
pub fn seqlock_verdict(pre_index: usize, post_index: usize, snapshot: ObservationSnapshot) -> (r:
    ReadResult)
    ensures
        vstd::wrapping::usize_specs::wrapping_sub(post_index, pre_index) < OBSERVATION_SLOT_COUNT
            ==> r == ReadResult::Read(snapshot),
        vstd::wrapping::usize_specs::wrapping_sub(post_index, pre_index) >= OBSERVATION_SLOT_COUNT
            ==> r == ReadResult::RingLapped,
{
    if post_index.wrapping_sub(pre_index) < OBSERVATION_SLOT_COUNT {
        ReadResult::Read(snapshot)
    } else {
        ReadResult::RingLapped
    }
}

} // verus!
