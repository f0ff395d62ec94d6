//! Values of `ContextEnvelopeEntry::compression_level`.

use vstd::prelude::*;

verus! {

/// No compression applied: the envelope is below the threshold.
pub const NONE: u8 = 0;

/// Level 1: duplicate observations removed.
pub const DEDUP: u8 = 1;

/// Level 2: older steps summarized into the compressed history zone.
pub const SUMMARIZE: u8 = 2;

/// Level 3: meta-summary, only critical facts retained.
pub const META: u8 = 3;

} // verus!
