//! The context envelope of a running agent: token counts per zone of its
//! context window, the compression state, and the compressed payload
//! (1024 bytes, beside the goal's state entry).
//!
//! Zones and their limits: anchor (900 tokens), working (no limit), recent
//! history (3000), compressed history (1500), semantic anchors (400).

use vstd::prelude::*;

pub mod compression_level;
pub mod token_limits;

verus! {

/// A context envelope entry of the mutable region.
#[derive(Debug, Clone, Copy)]
pub struct ContextEnvelopeEntry {
    /// The goal this envelope belongs to.
    pub goal_id: u64,
    /// The agent that owns this envelope.
    pub agent_id: u64,
    /// Tokens in the anchor zone.
    pub anchor_token_count: u32,
    /// Tokens in the working zone.
    pub working_token_count: u32,
    /// Tokens in the recent history zone.
    pub recent_token_count: u32,
    /// Tokens in the compressed history zone.
    pub compressed_token_count: u32,
    /// Tokens in the semantic anchor zone.
    pub semantic_token_count: u32,
    /// The compression level applied (see `compression_level`).
    pub compression_level: u8,
    /// Alignment padding.
    pub _pad1: [u8; 3],
    /// The step at which the last compression was triggered.
    pub last_compressed_step: u32,
    /// Reasoning steps completed so far.
    pub total_steps: u32,
    /// The compressed content.
    pub payload: [u8; 960],
    /// Padding to 1024 bytes.
    pub _pad: [u8; 16],
}

/// The sum of the zones' token counts, capped at `u32::MAX`.
pub open spec fn zone_total(e: ContextEnvelopeEntry) -> int {
    let sum = e.anchor_token_count + e.working_token_count + e.recent_token_count
        + e.compressed_token_count + e.semantic_token_count;
    if sum > u32::MAX {
        u32::MAX as int
    } else {
        sum
    }
}

/// Some zone with a limit is at or over it.
pub open spec fn over_limit(e: ContextEnvelopeEntry) -> bool {
    ||| e.recent_token_count >= token_limits::RECENT_MAX
    ||| e.compressed_token_count >= token_limits::COMPRESSED_MAX
    ||| e.anchor_token_count >= token_limits::ANCHOR_MAX
    ||| e.semantic_token_count >= token_limits::SEMANTIC_MAX
}

/// Compression is needed exactly when some zone with a limit is full: the
/// recent history at 3,000 tokens, the compressed history at 1,500, the
/// anchor zone at 900 or the semantic anchors at 400; the working zone
/// never forces it. Filling any zone further never makes it unneeded.
pub proof fn lemma_compression_trigger(e: ContextEnvelopeEntry, f: ContextEnvelopeEntry)
    ensures
        e.recent_token_count >= 3000 ==> over_limit(e),
        e.compressed_token_count >= 1500 ==> over_limit(e),
        e.anchor_token_count >= 900 ==> over_limit(e),
        e.semantic_token_count >= 400 ==> over_limit(e),
        e.recent_token_count < 3000 && e.compressed_token_count < 1500 && e.anchor_token_count < 900
            && e.semantic_token_count < 400 ==> !over_limit(e),
        over_limit(e) && f.recent_token_count >= e.recent_token_count && f.compressed_token_count
            >= e.compressed_token_count && f.anchor_token_count >= e.anchor_token_count
            && f.semantic_token_count >= e.semantic_token_count ==> over_limit(f),
{
}

impl Default for ContextEnvelopeEntry {
    /// An envelope with every count, the compression level and the payload
    /// at zero.
    fn default() -> (r: Self)
        ensures
            r.goal_id == 0,
            r.agent_id == 0,
            r.anchor_token_count == 0,
            r.working_token_count == 0,
            r.recent_token_count == 0,
            r.compressed_token_count == 0,
            r.semantic_token_count == 0,
            r.compression_level == compression_level::NONE,
            r.last_compressed_step == 0,
            r.total_steps == 0,
            forall|i: int| 0 <= i < 960 ==> #[trigger] r.payload@[i] == 0,
    {
        ContextEnvelopeEntry {
            goal_id: 0,
            agent_id: 0,
            anchor_token_count: 0,
            working_token_count: 0,
            recent_token_count: 0,
            compressed_token_count: 0,
            semantic_token_count: 0,
            compression_level: compression_level::NONE,
            _pad1: [0u8; 3],
            last_compressed_step: 0,
            total_steps: 0,
            payload: [0u8; 960],
            _pad: [0u8; 16],
        }
    }
}

impl ContextEnvelopeEntry {
    /// The total token count across all zones, saturating at `u32::MAX`.
    pub fn total_tokens(&self) -> (r: u32)
        ensures
            r == zone_total(*self),
    {
        self.anchor_token_count.saturating_add(self.working_token_count).saturating_add(
            self.recent_token_count,
        ).saturating_add(self.compressed_token_count).saturating_add(self.semantic_token_count)
    }

    /// Whether any zone with a limit is at or over it.
    pub fn needs_compression(&self) -> (r: bool)
        ensures
            r == over_limit(*self),
            self.compressed_token_count >= token_limits::COMPRESSED_MAX ==> r,
            self.recent_token_count >= token_limits::RECENT_MAX ==> r,
            self.anchor_token_count >= token_limits::ANCHOR_MAX ==> r,
            self.semantic_token_count >= token_limits::SEMANTIC_MAX ==> r,
    {
        self.recent_token_count >= token_limits::RECENT_MAX || self.compressed_token_count
            >= token_limits::COMPRESSED_MAX || self.anchor_token_count >= token_limits::ANCHOR_MAX
            || self.semantic_token_count >= token_limits::SEMANTIC_MAX
    }

    /// The used part of the payload: the bytes before the first zero byte,
    /// or the whole payload when it holds no zero. Callers that know the
    /// actual payload length should slice the payload directly.
    pub fn payload_slice(&self) -> (r: &[u8])
        ensures
            r@ == self.payload@.take(used_len(self.payload@) as int),
    {
        let p = self.payload.as_slice();
        let mut k: usize = 0;
        while k < p.len() && p[k] != 0
            invariant
                k <= p@.len(),
                p@ == self.payload@,
                forall|i: int| 0 <= i < k ==> p@[i] != 0,
            decreases p@.len() - k,
        {
            k = k + 1;
        }
        proof {
            lemma_used_len(p@, k as int);
        }
        vstd::slice::slice_subrange(p, 0, k)
    }
}

/// The length of the leading run of non-zero bytes of `p`.
pub open spec fn used_len(p: Seq<u8>) -> nat
    decreases p.len(),
{
    if p.len() == 0 || p[0] == 0 {
        0
    } else {
        1 + used_len(p.drop_first())
    }
}

/// A run of `k` non-zero bytes that ends at a zero byte or at the end of
/// `p` is its leading run.
proof fn lemma_used_len(p: Seq<u8>, k: int)
    requires
        0 <= k <= p.len(),
        forall|i: int| 0 <= i < k ==> p[i] != 0,
        k < p.len() ==> p[k] == 0,
    ensures
        used_len(p) == k,
    decreases k,
{
    if k > 0 {
        let q = p.drop_first();
        assert forall|i: int| 0 <= i < k - 1 implies q[i] != 0 by {
            assert(q[i] == p[i + 1]);
        }
        if k < p.len() {
            assert(q[k - 1] == p[k]);
        }
        lemma_used_len(q, k - 1);
    }
}

} // verus!
