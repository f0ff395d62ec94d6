//! The metadata of the machine's application profile that the mapped fast
//! path needs: how many applications, when the profile was captured, and
//! whether every source has reported (24 bytes).

use vstd::prelude::*;

verus! {

/// The machine profile's metadata.
#[derive(Debug, Clone, Copy)]
pub struct MachineProfile {
    /// Number of installed applications found at refresh time.
    pub live_app_count: u32,
    /// Layout schema version.
    pub schema_version: u32,
    /// Monotonic time of capture, in nanoseconds.
    pub captured_at_ns: u64,
    /// 1 when every data source has reported, 0 during a partial refresh.
    pub sources_complete: u8,
    /// Alignment padding.
    pub _pad: [u8; 7],
}

impl MachineProfile {
    /// The profile before its first refresh: no applications, captured at 0,
    /// sources incomplete, schema version 1.
    pub fn empty() -> (r: Self)
        ensures
            r.live_app_count == 0,
            r.schema_version == 1,
            r.captured_at_ns == 0,
            r.sources_complete == 0,
            forall|i: int| 0 <= i < 7 ==> #[trigger] r._pad@[i] == 0,
    {
        MachineProfile {
            live_app_count: 0,
            schema_version: 1,
            captured_at_ns: 0,
            sources_complete: 0,
            _pad: [0u8; 7],
        }
    }

    /// Whether the profile was never refreshed: no applications and never
    /// captured.
    pub fn is_empty(&self) -> (r: bool)
        ensures
            r == (self.live_app_count == 0 && self.captured_at_ns == 0),
    {
        self.live_app_count == 0 && self.captured_at_ns == 0
    }

    /// Whether every data source has reported, so the matrix is usable.
    pub fn is_complete(&self) -> (r: bool)
        ensures
            r == (self.sources_complete == 1),
    {
        self.sources_complete == 1
    }
}

} // verus!
