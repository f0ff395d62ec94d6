//! Fixed-size entries of the mutable region's slots. Each entry's default is
//! all zero, as a fresh mapping holds.

use vstd::prelude::*;

verus! {

/// A goal's node in the goal dependency graph (1024 bytes).
#[derive(Debug, Clone, Copy)]
pub struct GoalStateEntry {
    pub goal_id: u64,
    pub parent_goal_id: u64,
    /// 0=PENDING, 1=RUNNING, 2=COMPLETE, 3=FAILED.
    pub status: u8,
    pub agent_type: u8,
    pub critical_path_len: u16,
    /// Up to 8 goals this one depends on.
    pub depends_on: [u64; 8],
    /// Index into the goal contract slab.
    pub contract_ref: u32,
    pub result_payload_len: u32,
    /// Inline result payload.
    pub result_payload: [u8; 928],
}

impl GoalStateEntry {
    /// Every field is zero.
    pub open spec fn is_zeroed(&self) -> bool {
        &&& self.goal_id == 0
        &&& self.parent_goal_id == 0
        &&& self.status == 0
        &&& self.agent_type == 0
        &&& self.critical_path_len == 0
        &&& forall|i: int| 0 <= i < 8 ==> #[trigger] self.depends_on@[i] == 0
        &&& self.contract_ref == 0
        &&& self.result_payload_len == 0
        &&& forall|i: int| 0 <= i < 928 ==> #[trigger] self.result_payload@[i] == 0
    }
}

impl Default for GoalStateEntry {
    fn default() -> (r: Self)
        ensures
            r.is_zeroed(),
    {
        GoalStateEntry {
            goal_id: 0,
            parent_goal_id: 0,
            status: 0,
            agent_type: 0,
            critical_path_len: 0,
            depends_on: [0u64; 8],
            contract_ref: 0,
            result_payload_len: 0,
            result_payload: [0u8; 928],
        }
    }
}

/// An agent's registry entry (512 bytes).
#[derive(Debug, Clone, Copy)]
pub struct AgentRegistryEntry {
    pub agent_id: u64,
    pub agent_type: u8,
    /// 0=IDLE, 1=RUNNING, 2=STALLED, 3=TERMINATED.
    pub status: u8,
    pub failure_count: u32,
    pub heartbeat_ts: u64,
    pub current_goal_id: u64,
    pub tokens_consumed: i64,
    pub _pad: [u8; 472],
}

impl AgentRegistryEntry {
    /// Every field is zero.
    pub open spec fn is_zeroed(&self) -> bool {
        &&& self.agent_id == 0
        &&& self.agent_type == 0
        &&& self.status == 0
        &&& self.failure_count == 0
        &&& self.heartbeat_ts == 0
        &&& self.current_goal_id == 0
        &&& self.tokens_consumed == 0
        &&& forall|i: int| 0 <= i < 472 ==> #[trigger] self._pad@[i] == 0
    }
}

impl Default for AgentRegistryEntry {
    fn default() -> (r: Self)
        ensures
            r.is_zeroed(),
    {
        AgentRegistryEntry {
            agent_id: 0,
            agent_type: 0,
            status: 0,
            failure_count: 0,
            heartbeat_ts: 0,
            current_goal_id: 0,
            tokens_consumed: 0,
            _pad: [0u8; 472],
        }
    }
}

/// An input surface token's state (64 bytes).
#[derive(Debug, Clone, Copy)]
pub struct TokenStateEntry {
    pub surface_id: u32,
    /// 0=FREE, 1=ACQUIRED.
    pub state: u8,
    pub holder_agent_id: u64,
    pub acquired_lamport: u64,
    pub _pad: [u8; 40],
}

impl TokenStateEntry {
    /// Every field is zero.
    pub open spec fn is_zeroed(&self) -> bool {
        &&& self.surface_id == 0
        &&& self.state == 0
        &&& self.holder_agent_id == 0
        &&& self.acquired_lamport == 0
        &&& forall|i: int| 0 <= i < 40 ==> #[trigger] self._pad@[i] == 0
    }
}

impl Default for TokenStateEntry {
    fn default() -> (r: Self)
        ensures
            r.is_zeroed(),
    {
        TokenStateEntry {
            surface_id: 0,
            state: 0,
            holder_agent_id: 0,
            acquired_lamport: 0,
            _pad: [0u8; 40],
        }
    }
}

/// Which agent a surface is assigned to (64 bytes).
#[derive(Debug, Clone, Copy)]
pub struct SurfaceAssignmentEntry {
    pub surface_id: u32,
    pub agent_id: u64,
    pub assigned_lamport: u64,
    pub _pad: [u8; 40],
}

impl SurfaceAssignmentEntry {
    /// Every field is zero.
    pub open spec fn is_zeroed(&self) -> bool {
        &&& self.surface_id == 0
        &&& self.agent_id == 0
        &&& self.assigned_lamport == 0
        &&& forall|i: int| 0 <= i < 40 ==> #[trigger] self._pad@[i] == 0
    }
}

impl Default for SurfaceAssignmentEntry {
    fn default() -> (r: Self)
        ensures
            r.is_zeroed(),
    {
        SurfaceAssignmentEntry { surface_id: 0, agent_id: 0, assigned_lamport: 0, _pad: [0u8; 40] }
    }
}

/// A routing entry from a task signature to resources (1024 bytes).
#[derive(Debug, Clone, Copy)]
pub struct CapabilityMapEntry {
    pub task_sig: [u8; 64],
    pub resource_ids: [u32; 16],
    pub resource_count: u8,
    pub hot_reload_version: u32,
    pub _pad: [u8; 888],
}

impl CapabilityMapEntry {
    /// Every field is zero.
    pub open spec fn is_zeroed(&self) -> bool {
        &&& forall|i: int| 0 <= i < 64 ==> #[trigger] self.task_sig@[i] == 0
        &&& forall|i: int| 0 <= i < 16 ==> #[trigger] self.resource_ids@[i] == 0
        &&& self.resource_count == 0
        &&& self.hot_reload_version == 0
        &&& forall|i: int| 0 <= i < 888 ==> #[trigger] self._pad@[i] == 0
    }
}

impl Default for CapabilityMapEntry {
    fn default() -> (r: Self)
        ensures
            r.is_zeroed(),
    {
        CapabilityMapEntry {
            task_sig: [0u8; 64],
            resource_ids: [0u32; 16],
            resource_count: 0,
            hot_reload_version: 0,
            _pad: [0u8; 888],
        }
    }
}

/// An agent's token debt (256 bytes). The average overrun is kept as the
/// bit pattern of its IEEE single-precision value.
#[derive(Debug, Clone, Copy)]
pub struct TokenDebtEntry {
    pub agent_id: u64,
    pub cumulative_debt: i64,
    pub call_count: u64,
    /// Average overrun in tokens, as `f32` bits.
    pub avg_overrun_tokens_bits: u32,
    pub last_overrun_lamport: u64,
    pub _pad: [u8; 216],
}

impl TokenDebtEntry {
    /// Every field is zero.
    pub open spec fn is_zeroed(&self) -> bool {
        &&& self.agent_id == 0
        &&& self.cumulative_debt == 0
        &&& self.call_count == 0
        &&& self.avg_overrun_tokens_bits == 0
        &&& self.last_overrun_lamport == 0
        &&& forall|i: int| 0 <= i < 216 ==> #[trigger] self._pad@[i] == 0
    }
}

impl Default for TokenDebtEntry {
    fn default() -> (r: Self)
        ensures
            r.is_zeroed(),
    {
        TokenDebtEntry {
            agent_id: 0,
            cumulative_debt: 0,
            call_count: 0,
            avg_overrun_tokens_bits: 0,
            last_overrun_lamport: 0,
            _pad: [0u8; 216],
        }
    }
}

} // verus!
