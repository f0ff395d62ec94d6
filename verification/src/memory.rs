//! The typed-buffer memory system: slot layouts, the event log, the
//! observation ring, the slab allocator and the mutable region.

pub mod error;
pub mod event_log;
pub mod observation;
pub mod slab;
pub mod slots;
pub mod mutable_region;
pub mod context_envelope;
pub mod machine_profile;
pub mod curated_facts;
pub mod embedding;
pub mod hnsw;
pub mod embedding_cache;
pub mod immutable;
pub mod namespace;
pub mod compute;
pub mod world_model;
