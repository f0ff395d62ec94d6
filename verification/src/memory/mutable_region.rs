//! The mutable region: every slot under its own write lock, each write
//! stamped with the Lamport clock.
//!
//! A write records its agent as the holder, runs the update, advances the
//! global Lamport clock, advances the caller's timestamp to that value,
//! stores it as the slot's last modification, and clears the holder. Here
//! the write lock is the exclusive borrow of the slot, held for the call.
//!
//! Slot IDs are consecutive across the kinds of slot, in the order goal
//! states, agent registry, token state, surface assignments, capability map,
//! token debt ledger.

use vstd::prelude::*;
use crate::AgentId;
use crate::atomic::{AtomicTimestamp, max_u64};
use crate::error::SlotId;
use crate::memory::error::{LamportClock, LockTimeoutError, advance_lamport, current_lamport};
use crate::memory::slots::{
    AgentRegistryEntry,
    CapabilityMapEntry,
    GoalStateEntry,
    SurfaceAssignmentEntry,
    TokenDebtEntry,
    TokenStateEntry,
};

verus! {

/// Number of goal state slots.
pub const GOAL_STATE_COUNT: usize = 512;

/// Number of agent registry slots.
pub const AGENT_REGISTRY_COUNT: usize = 64;

/// Number of token state slots.
pub const TOKEN_STATE_COUNT: usize = 256;

/// Number of surface assignment slots.
pub const SURFACE_ASSIGNMENT_COUNT: usize = 64;

/// Number of capability map slots.
pub const CAPABILITY_MAP_COUNT: usize = 128;

/// Number of token debt slots.
pub const TOKEN_DEBT_COUNT: usize = 64;

/// Number of lock-free counters.
pub const ATOMIC_COUNTER_COUNT: usize = 1024;

/// How long a write waits for its lock before it reports a timeout.
pub const WRITE_LOCK_TIMEOUT_MS: u64 = 500;

/// The error of a write to slot `slot_id` that waited the whole timeout
/// while `holder_agent_id` (0 when unknown) held the slot's lock: it names
/// the slot, the holder, the time waited and the current clock.
pub fn lock_timeout_error(slot_id: SlotId, holder_agent_id: u64, clock: &LamportClock) -> (r:
    LockTimeoutError)
    ensures
        r == (LockTimeoutError {
            slot_id,
            holder_agent_id,
            waited_ms: WRITE_LOCK_TIMEOUT_MS,
            lamport_ts: clock@,
        }),
{
    LockTimeoutError {
        slot_id,
        holder_agent_id,
        waited_ms: WRITE_LOCK_TIMEOUT_MS,
        lamport_ts: current_lamport(clock),
    }
}

/// A single slot of the mutable region.
pub struct MutableSlot<T: Copy> {
    value: T,
    last_modified_lamport: u64,
    /// Identifies the slot in errors and bus events.
    pub slot_id: SlotId,
    holder_agent_id: u64,
}

impl<T: Copy> MutableSlot<T> {
    /// The slot's content.
    pub closed spec fn spec_value(&self) -> T {
        self.value
    }

    /// The slot's ID.
    pub closed spec fn spec_slot_id(&self) -> SlotId {
        self.slot_id
    }

    /// The Lamport timestamp of the last successful write, 0 before any.
    pub closed spec fn spec_last_modified(&self) -> u64 {
        self.last_modified_lamport
    }

    /// The agent recorded as holding the write lock, 0 when none.
    pub closed spec fn spec_holder(&self) -> u64 {
        self.holder_agent_id
    }

    /// A slot holding `initial`, never written, with no holder.
    pub fn new(initial: T, slot_id: SlotId) -> (r: Self)
        ensures
            r.spec_value() == initial,
            r.spec_last_modified() == 0,
            r.spec_holder() == 0,
            r.spec_slot_id() == slot_id,
    {
        MutableSlot { value: initial, last_modified_lamport: 0, slot_id, holder_agent_id: 0 }
    }

    /// Writes the slot under its lock: `f` maps the old content to the new
    /// content and a result. Then the global clock advances by one, the
    /// caller's timestamp `lamport` follows it by the Lamport receive rule,
    /// and the new clock value becomes the slot's last modification.
    ///
    /// The exclusive borrow is the lock, so the write never times out here.
    pub fn write<F, R>(
        &mut self,
        agent_id: AgentId,
        lamport: &mut AtomicTimestamp,
        clock: &mut LamportClock,
        f: F,
    ) -> (r: Result<R, LockTimeoutError>) where F: FnOnce(T) -> (T, R)
        requires
            f.requires((old(self).spec_value(),)),
            old(clock)@ < u64::MAX,
            max_u64(old(lamport)@, (old(clock)@ + 1) as u64) < u64::MAX,
        ensures
            match r {
                Ok(res) => f.ensures((old(self).spec_value(),), (final(self).spec_value(), res)),
                Err(_) => false,
            },
            final(clock)@ == old(clock)@ + 1,
            final(self).spec_last_modified() == final(clock)@,
            final(lamport)@ == max_u64(old(lamport)@, final(clock)@) + 1,
            final(lamport)@ > final(self).spec_last_modified(),
            final(self).spec_last_modified() > old(clock)@,
            old(self).spec_last_modified() <= old(clock)@ ==> final(self).spec_last_modified()
                > old(self).spec_last_modified(),
            final(self).spec_holder() == 0,
            final(self).spec_slot_id() == old(self).spec_slot_id(),
    {
        self.holder_agent_id = agent_id;
        let (new_value, result) = f(self.value);
        self.value = new_value;
        let new_lamport = advance_lamport(clock);
        lamport.advance_to(new_lamport);
        self.last_modified_lamport = new_lamport;
        self.holder_agent_id = 0;
        Ok(result)
    }

    /// The error a timed-out write reports: this slot, the recorded holder,
    /// the time waited and the current clock. The holder is cleared.
    pub fn timeout_error(&mut self, clock: &LamportClock) -> (r: LockTimeoutError)
        ensures
            r == (LockTimeoutError {
                slot_id: old(self).spec_slot_id(),
                holder_agent_id: old(self).spec_holder(),
                waited_ms: WRITE_LOCK_TIMEOUT_MS,
                lamport_ts: clock@,
            }),
            final(self).spec_holder() == 0,
            final(self).spec_value() == old(self).spec_value(),
            final(self).spec_last_modified() == old(self).spec_last_modified(),
            final(self).spec_slot_id() == old(self).spec_slot_id(),
    {
        let holder = self.holder_agent_id;
        self.holder_agent_id = 0;
        lock_timeout_error(self.slot_id, holder, clock)
    }

    /// Reads the slot: returns `f` applied to its content.
    pub fn read<F, R>(&self, f: F) -> (r: R) where F: FnOnce(T) -> R
        requires
            f.requires((self.spec_value(),)),
        ensures
            f.ensures((self.spec_value(),), r),
    {
        f(self.value)
    }

    /// The Lamport timestamp of the last successful write.
    pub fn last_modified_lamport(&self) -> (r: u64)
        ensures
            r == self.spec_last_modified(),
    {
        self.last_modified_lamport
    }
}

/// The slots of one kind: `count` slots holding `initial`, with IDs
/// `first_id`, `first_id + 1`, ...
pub open spec fn fresh_slots<T: Copy>(
    v: Seq<MutableSlot<T>>,
    count: nat,
    first_id: nat,
    initial: T,
) -> bool {
    &&& v.len() == count
    &&& forall|i: int|
        0 <= i < count ==> {
            &&& (#[trigger] v[i]).spec_slot_id() == first_id + i
            &&& v[i].spec_value() == initial
            &&& v[i].spec_last_modified() == 0
            &&& v[i].spec_holder() == 0
        }
}

fn build_slots<T: Copy>(count: usize, first_id: u64, initial: T) -> (v: Vec<MutableSlot<T>>)
    requires
        first_id + count <= u64::MAX,
    ensures
        fresh_slots(v@, count as nat, first_id as nat, initial),
{
    let mut v: Vec<MutableSlot<T>> = Vec::with_capacity(count);
    let mut i: usize = 0;
    while i < count
        invariant
            i <= count,
            first_id + count <= u64::MAX,
            fresh_slots(v@, i as nat, first_id as nat, initial),
        decreases count - i,
    {
        v.push(MutableSlot::new(initial, first_id + i as u64));
        i = i + 1;
    }
    v
}

/// The whole mutable region: the slots of every kind, the lock-free
/// counters and the global Lamport timestamp.
pub struct MutableRegion {
    /// Goal state slots.
    pub goal_states: Vec<MutableSlot<GoalStateEntry>>,
    /// Agent registry slots.
    pub agent_registry: Vec<MutableSlot<AgentRegistryEntry>>,
    /// Input surface token slots.
    pub token_state: Vec<MutableSlot<TokenStateEntry>>,
    /// Surface-to-agent assignment slots.
    pub surface_assignments: Vec<MutableSlot<SurfaceAssignmentEntry>>,
    /// Task signature routing slots.
    pub capability_map: Vec<MutableSlot<CapabilityMapEntry>>,
    /// Per-agent token debt slots.
    pub token_debt_ledger: Vec<MutableSlot<TokenDebtEntry>>,
    /// Counters read and written without a lock.
    pub atomic_counters: Vec<u64>,
    /// The global Lamport timestamp, advanced by every write.
    pub lamport_clock: AtomicTimestamp,
    /// The number of installed applications.
    pub live_app_count: u32,
}

impl MutableRegion {
    /// Creates the region: every slot holds its zero entry and is never
    /// written, slot IDs run consecutively from 0 across the kinds, every
    /// counter and the clock are zero.
    pub fn new() -> (r: Self)
        ensures
            fresh_slots(r.goal_states@, 512, 0, r.goal_states@[0].spec_value()),
            r.goal_states@[0].spec_value().is_zeroed(),
            fresh_slots(r.agent_registry@, 64, 512, r.agent_registry@[0].spec_value()),
            r.agent_registry@[0].spec_value().is_zeroed(),
            fresh_slots(r.token_state@, 256, 576, r.token_state@[0].spec_value()),
            r.token_state@[0].spec_value().is_zeroed(),
            fresh_slots(r.surface_assignments@, 64, 832, r.surface_assignments@[0].spec_value()),
            r.surface_assignments@[0].spec_value().is_zeroed(),
            fresh_slots(r.capability_map@, 128, 896, r.capability_map@[0].spec_value()),
            r.capability_map@[0].spec_value().is_zeroed(),
            fresh_slots(r.token_debt_ledger@, 64, 1024, r.token_debt_ledger@[0].spec_value()),
            r.token_debt_ledger@[0].spec_value().is_zeroed(),
            r.atomic_counters@.len() == ATOMIC_COUNTER_COUNT,
            forall|i: int| 0 <= i < ATOMIC_COUNTER_COUNT ==> #[trigger] r.atomic_counters@[i] == 0,
            r.lamport_clock@ == 0,
            r.live_app_count == 0,
    {
        let mut atomic_counters: Vec<u64> = Vec::with_capacity(ATOMIC_COUNTER_COUNT);
        let mut i: usize = 0;
        while i < ATOMIC_COUNTER_COUNT
            invariant
                i <= ATOMIC_COUNTER_COUNT,
                atomic_counters@.len() == i,
                forall|j: int| 0 <= j < i ==> #[trigger] atomic_counters@[j] == 0,
            decreases ATOMIC_COUNTER_COUNT - i,
        {
            atomic_counters.push(0);
            i = i + 1;
        }
        let first_agent = GOAL_STATE_COUNT;
        let first_token = first_agent + AGENT_REGISTRY_COUNT;
        let first_surface = first_token + TOKEN_STATE_COUNT;
        let first_capability = first_surface + SURFACE_ASSIGNMENT_COUNT;
        let first_debt = first_capability + CAPABILITY_MAP_COUNT;
        let goal_states = build_slots(GOAL_STATE_COUNT, 0, GoalStateEntry::default());
        let agent_registry = build_slots(
            AGENT_REGISTRY_COUNT,
            first_agent as u64,
            AgentRegistryEntry::default(),
        );
        let token_state = build_slots(
            TOKEN_STATE_COUNT,
            first_token as u64,
            TokenStateEntry::default(),
        );
        let surface_assignments = build_slots(
            SURFACE_ASSIGNMENT_COUNT,
            first_surface as u64,
            SurfaceAssignmentEntry::default(),
        );
        let capability_map = build_slots(
            CAPABILITY_MAP_COUNT,
            first_capability as u64,
            CapabilityMapEntry::default(),
        );
        let token_debt_ledger = build_slots(
            TOKEN_DEBT_COUNT,
            first_debt as u64,
            TokenDebtEntry::default(),
        );
        MutableRegion {
            goal_states,
            agent_registry,
            token_state,
            surface_assignments,
            capability_map,
            token_debt_ledger,
            atomic_counters,
            lamport_clock: AtomicTimestamp::new(0),
            live_app_count: 0,
        }
    }
}

} // verus!
