//! Capacity limits of the token zones, in tokens.

use vstd::prelude::*;

verus! {

/// Anchor zone limit.
pub const ANCHOR_MAX: u32 = 900;

/// Recent history zone limit.
pub const RECENT_MAX: u32 = 3000;

/// Compressed history zone limit.
pub const COMPRESSED_MAX: u32 = 1500;

/// Semantic anchor zone limit.
pub const SEMANTIC_MAX: u32 = 400;

} // verus!
