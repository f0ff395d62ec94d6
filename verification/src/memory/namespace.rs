//! Capability tokens: what each agent may touch.
//!
//! The kernel issues each agent thread a token at spawn time. The token names
//! the slots in the agent's namespace and whether the agent may write the
//! compute region; every slot access is checked against it.

use crate::error::SlotId;
use crate::AgentId;
use std::collections::HashSet;
use std::sync::Arc;
use vstd::prelude::*;

verus! {

broadcast use vstd::std_specs::hash::group_hash_axioms;

/// A capability token issued by the kernel at agent thread spawn.
#[derive(Clone)]
pub struct CapabilityToken {
    /// The agent this token was issued to.
    pub agent_id: AgentId,
    /// The slots this agent may access.
    pub namespace: Arc<HashSet<SlotId>>,
    /// Whether this token includes compute-region write authorization.
    pub compute_write: bool,
    /// Lamport timestamp at which this token was issued.
    pub lamport_issued: u64,
}

impl CapabilityToken {
    /// Whether this token authorizes access to `slot_id`: whether the slot
    /// is in the namespace.
    pub fn allows(&self, slot_id: SlotId) -> (r: bool)
        ensures
            r == self.namespace@.contains(slot_id),
    {
        let set: &HashSet<SlotId> = &self.namespace;
        set.contains(&slot_id)
    }

    /// Whether this token includes compute-region write authorization.
    pub fn has_compute_write(&self) -> (r: bool)
        ensures
            r == self.compute_write,
    {
        self.compute_write
    }
}

} // verus!
