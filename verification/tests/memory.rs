use nexus::memory::context_envelope::{compression_level, token_limits, ContextEnvelopeEntry};
use nexus::memory::curated_facts::CuratedFactsStore;
use nexus::memory::error::{advance_lamport, current_lamport, sync_lamport, BufferError, LamportClock};
use nexus::memory::event_log::{EventLogBuffer, EventRecord, EMERGENCY_BUFFER_BYTES, EVENT_RECORD_SIZE};
use nexus::memory::hnsw::{HnswError, HnswIndexHandle};
use nexus::memory::compute::{rows_fit, ComputeRegion, EMBEDDING_DIM};
use nexus::memory::world_model::{WorldModelScalars, WORLD_MODEL_SCALARS_SIZE};
use nexus::memory::immutable::{Half, PingPong};
use nexus::memory::namespace::CapabilityToken;
use nexus::memory::machine_profile::MachineProfile;
use nexus::memory::mutable_region::{MutableRegion, MutableSlot};
use nexus::memory::observation::{seqlock_verdict, ObservationRing, ObservationSnapshot, ReadResult};
use nexus::memory::slab::SlabAllocator;
use nexus::atomic::AtomicTimestamp;
use std::sync::atomic::Ordering;

#[test]
fn test_lamport_advances_monotonically() {
    let mut clock = LamportClock::new();
    let t1 = advance_lamport(&mut clock);
    let t2 = advance_lamport(&mut clock);
    let t3 = advance_lamport(&mut clock);
    assert!(t2 > t1, "Lamport must advance: {} should be > {}", t2, t1);
    assert!(t3 > t2, "Lamport must advance: {} should be > {}", t3, t2);
}

#[test]
fn test_lamport_sync_increases() {
    let mut clock = LamportClock::new();
    let before = current_lamport(&clock);
    sync_lamport(&mut clock, before + 1000);
    let after = current_lamport(&clock);
    assert!(after >= before + 1000, "sync_lamport must increase clock");
}

#[test]
fn test_lamport_sync_no_decrease() {
    let mut clock = LamportClock::new();
    advance_lamport(&mut clock);
    let before = current_lamport(&clock);
    sync_lamport(&mut clock, 0);
    let after = current_lamport(&clock);
    assert!(after >= before, "sync_lamport must not decrease clock");
}

#[test]
fn test_size_is_1024_bytes() {
    assert_eq!(std::mem::size_of::<ContextEnvelopeEntry>(), 1024);
}

#[test]
fn test_default_all_zero_tokens() {
    let entry = ContextEnvelopeEntry::default();
    assert_eq!(entry.goal_id, 0);
    assert_eq!(entry.agent_id, 0);
    assert_eq!(entry.anchor_token_count, 0);
    assert_eq!(entry.working_token_count, 0);
    assert_eq!(entry.recent_token_count, 0);
    assert_eq!(entry.compressed_token_count, 0);
    assert_eq!(entry.semantic_token_count, 0);
    assert_eq!(entry.compression_level, compression_level::NONE);
    assert_eq!(entry.total_tokens(), 0);
}

#[test]
fn test_total_tokens_sums_all_zones() {
    let mut entry = ContextEnvelopeEntry::default();
    entry.anchor_token_count = 100;
    entry.working_token_count = 200;
    entry.recent_token_count = 300;
    entry.compressed_token_count = 150;
    entry.semantic_token_count = 50;
    assert_eq!(entry.total_tokens(), 800);
}

#[test]
fn test_needs_compression_when_recent_full() {
    let mut entry = ContextEnvelopeEntry::default();
    assert!(!entry.needs_compression());
    entry.recent_token_count = token_limits::RECENT_MAX;
    assert!(entry.needs_compression());
}

#[test]
fn test_needs_compression_when_anchor_full() {
    let mut entry = ContextEnvelopeEntry::default();
    entry.anchor_token_count = token_limits::ANCHOR_MAX;
    assert!(entry.needs_compression());
}

#[test]
fn test_compression_level_constants() {
    assert_eq!(compression_level::NONE, 0);
    assert_eq!(compression_level::DEDUP, 1);
    assert_eq!(compression_level::SUMMARIZE, 2);
    assert_eq!(compression_level::META, 3);
}

#[test]
fn test_goal_and_agent_assignment() {
    let mut entry = ContextEnvelopeEntry::default();
    entry.goal_id = 42;
    entry.agent_id = 7;
    entry.total_steps = 15;
    entry.last_compressed_step = 10;
    assert_eq!(entry.goal_id, 42);
    assert_eq!(entry.agent_id, 7);
    assert_eq!(entry.total_steps, 15);
    assert_eq!(entry.last_compressed_step, 10);
}

#[test]
fn total_tokens_saturates() {
    let mut entry = ContextEnvelopeEntry::default();
    entry.anchor_token_count = u32::MAX - 1;
    entry.working_token_count = 5;
    entry.semantic_token_count = 1;
    assert_eq!(entry.total_tokens(), u32::MAX);
    assert_eq!(entry.payload_slice().len(), 0);
}

#[test]
fn payload_slice_is_the_leading_non_zero_run() {
    let mut entry = ContextEnvelopeEntry::default();
    entry.payload[0] = 1;
    entry.payload[1] = 2;
    entry.payload[2] = 3;
    entry.payload[5] = 9;
    assert_eq!(entry.payload_slice(), &[1u8, 2, 3][..]);
    entry.payload = [7u8; 960];
    assert_eq!(entry.payload_slice().len(), 960);
}

#[test]
fn test_empty_profile_is_sentinel() {
    let profile = MachineProfile::empty();
    assert_eq!(profile.live_app_count, 0);
    assert_eq!(profile.captured_at_ns, 0);
    assert!(profile.is_empty());
    assert!(!profile.is_complete());
}

#[test]
fn test_populated_profile_is_not_empty() {
    let profile = MachineProfile {
        live_app_count: 42,
        schema_version: 1,
        captured_at_ns: 1_000_000_000,
        sources_complete: 1,
        _pad: [0; 7],
    };
    assert!(!profile.is_empty());
    assert!(profile.is_complete());
    assert_eq!(profile.live_app_count, 42);
}

#[test]
fn test_repr_c_size_is_24_bytes() {
    assert_eq!(std::mem::size_of::<MachineProfile>(), 24);
}

#[test]
fn test_partial_refresh_not_complete() {
    let mut profile = MachineProfile::empty();
    profile.live_app_count = 10;
    profile.captured_at_ns = 500;
    profile.sources_complete = 0;
    assert!(!profile.is_complete());
    assert!(!profile.is_empty());
}

#[test]
fn test_schema_version_default() {
    let profile = MachineProfile::empty();
    assert_eq!(profile.schema_version, 1);
}

fn make_test_event(event_type: u8, slot_id: u64) -> EventRecord {
    EventRecord {
        event_type,
        slot_id,
        agent_id: 1,
        lamport_ts: 100,
        operation: 0,
        traceback_ref: 0,
        access_event_ref: 0,
        promotion_pending: 0,
        _pad: [0; 21],
    }
}

fn make_event(ts: u64) -> EventRecord {
    let mut e = make_test_event(0, 1);
    e.lamport_ts = ts;
    e
}

#[test]
fn test_event_record_size_is_fixed() {
    let size = std::mem::size_of::<EventRecord>();
    assert!(size > 0, "EventRecord must have nonzero size");
    assert!(size <= 128, "EventRecord unexpectedly large: {} bytes", size);
}

#[test]
fn test_from_mmap_succeeds_on_aligned_capacity() {
    let capacity = EVENT_RECORD_SIZE * 16;
    let buf = EventLogBuffer::from_mmap(capacity, true);
    assert_eq!(buf.write_position(), 0);
    assert_eq!(buf.drain_position(), 0);
}

#[test]
fn test_append_and_drain_single_event() {
    let capacity = EVENT_RECORD_SIZE * 16;
    let mut buf = EventLogBuffer::from_mmap(capacity, true);

    let event = make_test_event(1, 42);
    let offset = buf.append(&event).expect("append must succeed");
    assert_eq!(offset, 0);

    let drained = buf.drain();
    assert_eq!(drained.len(), 1);
    assert_eq!(drained[0].slot_id, 42);
    assert_eq!(drained[0].event_type, 1);
}

#[test]
fn test_ring_wraps_correctly() {
    let capacity = EVENT_RECORD_SIZE * 4;
    let mut buf = EventLogBuffer::from_mmap(capacity, true);

    for i in 0..4u64 {
        buf.append(&make_test_event(0, i)).expect("append must succeed");
    }

    let drained = buf.drain();
    assert_eq!(drained.len(), 4);

    for i in 10..14u64 {
        buf.append(&make_test_event(0, i)).expect("append after drain must succeed");
    }

    let drained2 = buf.drain();
    assert_eq!(drained2.len(), 4);
    assert_eq!(drained2[0].slot_id, 10);
    assert_eq!(drained2[3].slot_id, 13);
}

#[test]
fn test_full_ring_returns_error() {
    let capacity = EVENT_RECORD_SIZE * 2;
    let mut buf = EventLogBuffer::from_mmap(capacity, true);

    buf.append(&make_test_event(0, 1)).unwrap();
    buf.append(&make_test_event(0, 2)).unwrap();

    let result = buf.append(&make_test_event(0, 3));
    assert!(result.is_err(), "append to full ring must return Err");
}

#[test]
fn test_emergency_buffer_used_when_sqlite_not_ready() {
    let capacity = EVENT_RECORD_SIZE * 16;
    let mut buf = EventLogBuffer::from_mmap(capacity, false);

    let event = make_test_event(1, 99);
    let result = buf.append(&event);
    assert!(result.is_ok(), "emergency append must succeed");

    buf.set_sqlite_ready(true);
    let promoted = buf.promote_emergency();
    assert_eq!(promoted.len(), 1);
    assert_eq!(promoted[0].slot_id, 99);
}

#[test]
fn test_drain_returns_all_events_in_order() {
    let mut buf = EventLogBuffer::from_mmap(EVENT_RECORD_SIZE * 128, true);

    let count = 100usize;
    for i in 0..count {
        buf.append(&make_event(i as u64)).expect("append failed");
    }

    let drained = buf.drain();
    assert_eq!(drained.len(), count, "expected {} events, got {}", count, drained.len());
    for (i, ev) in drained.iter().enumerate() {
        assert_eq!(ev.lamport_ts, i as u64, "event {} has wrong lamport_ts", i);
    }
}

#[test]
fn test_emergency_buffer_promotes_on_sqlite_ready() {
    let mut buf = EventLogBuffer::from_mmap(EVENT_RECORD_SIZE * 128, false);

    let mut use_event = make_event(42);
    use_event.event_type = 1;
    use_event.promotion_pending = 1;
    buf.append(&use_event).expect("emergency append failed");

    let before_promote = buf.drain();
    assert_eq!(before_promote.len(), 0, "main ring should be empty before promotion");

    buf.set_sqlite_ready(true);
    let promoted = buf.promote_emergency();
    assert_eq!(promoted.len(), 1, "should have promoted 1 event");
    assert_eq!(promoted[0].lamport_ts, 42, "promoted event has wrong lamport_ts");

    let after_promote = buf.drain();
    assert_eq!(after_promote.len(), 1, "drain should return 1 promoted event");
    assert_eq!(after_promote[0].lamport_ts, 42);
}

#[test]
fn event_log_positions_and_emergency_limit() {
    let mut buf = EventLogBuffer::from_mmap(EVENT_RECORD_SIZE * 3, true);
    assert_eq!(buf.append(&make_event(1)), Ok(0));
    assert_eq!(buf.append(&make_event(2)), Ok(EVENT_RECORD_SIZE));
    assert_eq!(buf.undrained_bytes(), 2 * EVENT_RECORD_SIZE);
    buf.drain();
    assert_eq!(buf.drain_position(), 2 * EVENT_RECORD_SIZE);
    assert_eq!(buf.append(&make_event(3)), Ok(2 * EVENT_RECORD_SIZE));
    assert_eq!(buf.append(&make_event(4)), Ok(3 * EVENT_RECORD_SIZE));
    assert_eq!(buf.drain().iter().map(|e| e.lamport_ts).collect::<Vec<_>>(), vec![3, 4]);

    let mut emergency = EventLogBuffer::from_mmap(EVENT_RECORD_SIZE, false);
    let fits = EMERGENCY_BUFFER_BYTES / EVENT_RECORD_SIZE;
    for i in 0..fits {
        assert_eq!(emergency.append(&make_event(i as u64)), Ok(i * EVENT_RECORD_SIZE));
    }
    assert_eq!(emergency.append(&make_event(0)), Err(BufferError::Full));
    let promoted = emergency.promote_emergency();
    assert_eq!(promoted.len(), fits);
    // Not ready yet: the records are handed back and the emergency buffer
    // is emptied; nothing is queued.
    assert_eq!(emergency.drain().len(), 0);
    assert_eq!(emergency.promote_emergency().len(), 0);
    for i in 0..fits {
        emergency.append(&make_event(i as u64)).unwrap();
    }
    emergency.set_sqlite_ready(true);
    let again = emergency.promote_emergency();
    assert_eq!(again.len(), fits);
    // Only one record fits into the ring; all of them were handed back.
    assert_eq!(emergency.drain().len(), 1);
    assert_eq!(emergency.promote_emergency().len(), 0);
}

#[test]
fn promotion_returns_records_as_stored_and_queues_them_cleared() {
    let mut buf = EventLogBuffer::from_mmap(EVENT_RECORD_SIZE * 4, false);
    let mut e = make_event(7);
    e.promotion_pending = 1;
    buf.append(&e).unwrap();
    buf.set_sqlite_ready(true);
    let promoted = buf.promote_emergency();
    assert_eq!(promoted[0].promotion_pending, 1);
    assert_eq!(promoted[0].lamport_ts, 7);
    let drained = buf.drain();
    assert_eq!(drained[0].promotion_pending, 0);
    assert_eq!(drained[0].lamport_ts, 7);
    assert!(buf.promote_emergency().is_empty());
}

type TestSlab = SlabAllocator<64, 16>;

#[test]
fn test_exhaustion_returns_none() {
    let mut slab = TestSlab::init();
    let mut slots = Vec::new();
    for _ in 0..16 {
        let slot = slab.acquire();
        assert!(slot.is_some(), "should succeed for first 16");
        slots.push(slot.unwrap());
    }
    assert_eq!(slab.allocated_count(), 16);
    assert_eq!(slab.free_count(), 0);
    let overflow = slab.acquire();
    assert!(overflow.is_none(), "slab must return None when exhausted");
}

#[test]
fn test_release_and_reacquire() {
    let mut slab = TestSlab::init();
    let mut slots = Vec::new();
    for _ in 0..10 {
        slots.push(slab.acquire().unwrap());
    }
    assert_eq!(slab.allocated_count(), 10);

    for (idx, _offset) in slots.drain(0..5) {
        slab.release(idx);
    }
    assert_eq!(slab.allocated_count(), 5);

    for _ in 0..5 {
        let slot = slab.acquire();
        assert!(slot.is_some());
        let (idx, offset) = slot.unwrap();
        assert!(offset < 64 * 16, "offset out of range");
        slots.push((idx, offset));
    }
    assert_eq!(slab.allocated_count(), 10);
}

#[test]
fn test_slot_pointer_arithmetic() {
    let slab = TestSlab::init();
    for i in 0..16 {
        let offset = slab.slot_ptr(i);
        assert_eq!(offset, i * 64, "slot_ptr({}) arithmetic wrong", i);
    }
}

#[test]
fn slab_hands_out_slots_in_order_and_reuses_last_released() {
    let mut slab = SlabAllocator::<8, 4>::init();
    assert_eq!(slab.acquire(), Some((0, 0)));
    assert_eq!(slab.acquire(), Some((1, 8)));
    slab.release(0);
    assert_eq!(slab.acquire(), Some((0, 0)));
    assert_eq!(slab.acquire(), Some((2, 16)));
    assert_eq!(slab.free_count(), 1);
}

fn make_snapshot(ts: u64) -> ObservationSnapshot {
    ObservationSnapshot {
        timestamp_ns: ts,
        active_window: [0; 64],
        active_process: [0; 32],
        active_pid: 0,
        total_cpu_pct_bits: 0,
        memory_used_mb: 0,
        memory_total_mb: 0,
        disk_free_gb_bits: 0,
        disk_pressure: 0,
        network_reachable: 0,
        network_latency_ms: 0,
        clipboard_type: 0,
        _pad: [0; 3],
        goal_ids_active: [0; 4],
        causal_goal_id: 0,
        causal_agent_id: 0,
        live_app_count: 0,
        _struct_pad: [0; 96],
        _cache_pad: [0; 64],
    }
}

#[test]
fn test_ring_wrap_overwrites_oldest() {
    let mut ring = ObservationRing::from_mmap();

    for i in 1u64..=151 {
        ring.write(make_snapshot(i));
    }

    let recent = ring.recent(150);
    assert_eq!(recent.len(), 150);
    assert_eq!(recent[0].timestamp_ns, 2, "oldest should be ts=2 after wrap");
    assert_eq!(recent[149].timestamp_ns, 151, "newest should be ts=151");
}

#[test]
fn test_full_lap_returns_ring_lapped() {
    let mut ring = ObservationRing::from_mmap();

    for i in 1u64..=150 {
        ring.write(make_snapshot(i));
    }

    for i in 151u64..=300 {
        ring.write(make_snapshot(i));
    }

    match ring.read(0) {
        ReadResult::Read(s) => {
            assert!(
                s.timestamp_ns == 151,
                "slot 0 should have ts=151 (written at claimed index 150), got {}",
                s.timestamp_ns
            );
        }
        ReadResult::RingLapped => {}
    }
}

#[test]
fn observation_recent_clamps_to_writes_and_slots() {
    let mut ring = ObservationRing::from_mmap();
    assert!(ring.recent(5).is_empty());
    for i in 1u64..=3 {
        ring.write(make_snapshot(i));
    }
    let r = ring.recent(10);
    assert_eq!(r.iter().map(|s| s.timestamp_ns).collect::<Vec<_>>(), vec![1, 2, 3]);
    assert_eq!(ring.recent(1)[0].timestamp_ns, 3);
    assert_eq!(ring.current_write_index(), 3);
    match ring.read(100) {
        ReadResult::Read(s) => assert_eq!(s.timestamp_ns, 0),
        ReadResult::RingLapped => panic!("nothing writes during the read"),
    }
}

#[test]
fn mutable_slot_write_stamps_lamport_and_returns_result() {
    let mut clock = LamportClock::new();
    let mut ts = AtomicTimestamp::new(10);
    let mut slot = MutableSlot::new(5u64, 77);
    let r = slot.write(3, &mut ts, &mut clock, |v| (v + 1, v * 2));
    assert_eq!(r.unwrap(), 10);
    assert_eq!(slot.read(|v| v), 6);
    assert_eq!(slot.last_modified_lamport(), 1);
    assert_eq!(current_lamport(&clock), 1);
    assert_eq!(ts.load(Ordering::Relaxed), 11);
    let err = slot.timeout_error(&clock);
    assert_eq!(err.slot_id, 77);
    assert_eq!(err.holder_agent_id, 0);
    assert_eq!(err.waited_ms, 500);
    assert_eq!(err.lamport_ts, 1);
}

#[test]
fn mutable_region_numbers_slots_across_kinds() {
    let region = MutableRegion::new();
    assert_eq!(region.goal_states.len(), 512);
    assert_eq!(region.goal_states[511].slot_id, 511);
    assert_eq!(region.agent_registry[0].slot_id, 512);
    assert_eq!(region.token_state[0].slot_id, 576);
    assert_eq!(region.surface_assignments[0].slot_id, 832);
    assert_eq!(region.capability_map[0].slot_id, 896);
    assert_eq!(region.token_debt_ledger[63].slot_id, 1087);
    assert_eq!(region.atomic_counters.len(), 1024);
    assert_eq!(region.lamport_clock.load(Ordering::Relaxed), 0);
}

#[test]
fn curated_facts_store_from_read() {
    let store = CuratedFactsStore::from_read("MEMORY.md", Some(String::from("facts")));
    assert!(store.is_loaded());
    assert_eq!(store.get().unwrap().as_str(), "facts");
    assert_eq!(store.source_path(), "MEMORY.md");
    let missing = CuratedFactsStore::from_read("none.md", None);
    assert!(!missing.is_loaded());
    assert!(missing.get().is_none());
}

#[test]
fn hnsw_error_text() {
    assert_eq!(
        HnswError::DimensionMismatch { expected: 8, got: 3 }.to_display_string(),
        "HNSW dimension mismatch: expected 8, got 3"
    );
    assert_eq!(HnswError::Full { capacity: 100 }.to_display_string(), "HNSW index full: capacity 100");
}

#[test]
fn ping_pong_publishes_the_staging_half_after_commit() {
    let mut region = PingPong::new();
    assert_eq!(region.live(), Half::A);
    assert_eq!(region.staging(), Half::B);
    assert_eq!(region.begin_write(false), Err(()));
    assert_eq!(region.live(), Half::A);
    assert_eq!(region.begin_write(true), Ok(Half::B));
    region.commit(true);
    assert_eq!(region.live(), Half::B);
    assert_eq!(region.staging(), Half::A);
    assert_eq!(region.begin_write(true), Ok(Half::A));
    region.commit(true);
    assert_eq!(region.live(), Half::A);
}

#[test]
fn capability_token_allows_only_its_namespace() {
    let mut slots = std::collections::HashSet::new();
    slots.insert(3u64);
    slots.insert(8u64);
    let token = CapabilityToken {
        agent_id: 1001,
        namespace: std::sync::Arc::new(slots),
        compute_write: false,
        lamport_issued: 5,
    };
    assert!(token.allows(3));
    assert!(token.allows(8));
    assert!(!token.allows(4));
    assert!(!token.has_compute_write());
    let worker = CapabilityToken { compute_write: true, ..token.clone() };
    assert!(worker.has_compute_write());
    assert!(worker.allows(8));
}

#[test]
fn test_matrix_write_read_byte_identical() {
    let mut region = ComputeRegion::new();
    let num_apps: usize = 100;
    let dim: usize = EMBEDDING_DIM;
    let mut source_data: Vec<u32> = Vec::with_capacity(num_apps * dim);
    for row in 0..num_apps {
        for col in 0..dim {
            source_data.push((row as f32 * 1000.0 + col as f32).to_bits());
        }
    }
    region.begin_matrix_write();
    region.write_rows(&source_data, num_apps, dim);
    region.end_matrix_write();
    let (values, returned_rows, returned_dim) =
        region.matrix_slice(num_apps as u32).expect("matrix_slice should return Some after write completes");
    assert_eq!(returned_rows, num_apps, "row count must match");
    assert_eq!(returned_dim, dim, "embedding dim must match");
    for i in 0..(num_apps * dim) {
        assert!(values[i] == source_data[i], "float mismatch at index {}", i);
    }
    assert_eq!(f32::from_bits(values[512 * 3 + 7]), 3007.0);
}

#[test]
fn test_namespace_violation_on_compute_write_attempt() {
    let mut region = ComputeRegion::new();
    assert!(region.matrix_slice(0).is_some(), "matrix_slice should return Some when no write is in progress");
    region.begin_matrix_write();
    assert!(region.matrix_slice(10).is_none(), "matrix_slice must return None while write_in_progress is true");
    region.end_matrix_write();
    assert!(region.matrix_slice(10).is_some(), "matrix_slice must return Some after the write window closes");
}

#[test]
fn test_readers_pause_on_write_begin_resume_on_done() {
    let mut region = ComputeRegion::new();
    let max_bytes = region.begin_matrix_write();
    assert_eq!(max_bytes, 1000 * 512 * 4);
    assert!(region.is_writing());
    for _reader in 0..3 {
        assert!(region.matrix_slice(10).is_none(), "matrix_slice must return None during write");
    }
    region.end_matrix_write();
    for _reader in 0..3 {
        let (values, rows, dim) = region.matrix_slice(10).expect("matrix_slice must return Some after write completes");
        assert_eq!((values.len(), rows, dim), (1000 * 512, 10, 512));
    }
}

#[test]
fn compute_rows_fit_the_matrix_capacity() {
    let max_bytes = 1000 * 512 * 4;
    assert!(rows_fit(100, 512, max_bytes));
    assert!(rows_fit(1000, 512, max_bytes));
    assert!(!rows_fit(1001, 512, max_bytes));
    assert!(!rows_fit(usize::MAX, usize::MAX, max_bytes));
}

#[test]
fn world_model_scalars_round_trip_through_bytes() {
    let mut s = WorldModelScalars::default();
    s.timestamp_ns = 0x0102_0304_0506_0708;
    s.active_pid = 4242;
    s.cpu_pct_bits = 37.5f32.to_bits();
    s.memory_used_mb = 8192;
    s.disk_free_gb_bits = 120.25f32.to_bits();
    s.network_reachable = 1;
    s._pad[3] = 9;
    let bytes = s.to_bytes();
    assert_eq!(bytes.len(), WORLD_MODEL_SCALARS_SIZE);
    assert_eq!(&bytes[0..8], &[8, 7, 6, 5, 4, 3, 2, 1]);
    assert_eq!(&bytes[8..12], &4242u32.to_le_bytes());
    assert_eq!(bytes[24], 1);
    assert_eq!(bytes[28], 9);
    let back = WorldModelScalars::from_bytes(&bytes).unwrap();
    assert_eq!(back.timestamp_ns, s.timestamp_ns);
    assert_eq!(back.active_pid, 4242);
    assert_eq!(f32::from_bits(back.cpu_pct_bits), 37.5);
    assert_eq!(back.memory_used_mb, 8192);
    assert_eq!(f32::from_bits(back.disk_free_gb_bits), 120.25);
    assert_eq!(back.network_reachable, 1);
    assert_eq!(back._pad, s._pad);
    assert_eq!(back.to_bytes(), bytes);
    assert!(WorldModelScalars::from_bytes(&bytes[..63]).is_none());
}

#[test]
fn seqlock_verdict_refuses_a_lapped_copy() {
    let s = make_snapshot(9);
    assert!(matches!(seqlock_verdict(10, 10, s), ReadResult::Read(x) if x.timestamp_ns == 9));
    assert!(matches!(seqlock_verdict(10, 159, s), ReadResult::Read(_)));
    assert!(matches!(seqlock_verdict(10, 160, s), ReadResult::RingLapped));
    assert!(matches!(seqlock_verdict(usize::MAX, 5, s), ReadResult::Read(_)));
    assert!(matches!(seqlock_verdict(usize::MAX - 200, 5, s), ReadResult::RingLapped));
}

#[test]
fn ping_pong_reports_a_write_under_way() {
    let mut region = PingPong::new();
    assert!(!region.is_writing());
    assert_eq!(region.begin_write(true), Ok(Half::B));
    assert!(region.is_writing());
    region.commit(true);
    assert!(!region.is_writing());
}

const TEST_DIM: usize = 8;
const TEST_CAPACITY: usize = 100;

fn normalized_vector(seed: f32, dim: usize) -> Vec<u32> {
    let mut v: Vec<f32> = (0..dim).map(|i| seed + i as f32 * 0.1).collect();
    let norm: f32 = v.iter().map(|x| x * x).sum::<f32>().sqrt();
    if norm > 0.0 {
        for x in v.iter_mut() {
            *x /= norm;
        }
    }
    v.into_iter().map(f32::to_bits).collect()
}

#[test]
fn test_new_index_is_empty() {
    let handle = HnswIndexHandle::new(TEST_DIM, TEST_CAPACITY).expect("index creation must succeed");
    assert!(handle.is_empty());
    assert_eq!(handle.len(), 0);
    assert_eq!(handle.dim(), TEST_DIM);
    assert_eq!(handle.capacity(), TEST_CAPACITY);
}

#[test]
fn test_dimension_mismatch_on_add() {
    let mut handle = HnswIndexHandle::new(TEST_DIM, TEST_CAPACITY).expect("index creation must succeed");
    let wrong_dim = vec![1.0f32.to_bits(); TEST_DIM + 1];
    let result = handle.add(0, &wrong_dim);
    assert!(matches!(result, Err(HnswError::DimensionMismatch { .. })));
    assert!(handle.is_empty());
}

#[test]
fn test_rebuild_dimension_mismatch() {
    let matrix = vec![1.0f32.to_bits(); 17];
    let result = HnswIndexHandle::rebuild(TEST_DIM, TEST_CAPACITY, &matrix);
    assert!(matches!(result, Err(HnswError::DimensionMismatch { expected: 8, got: 1 })));
}

#[test]
fn test_full_index_returns_error() {
    let small_capacity = 3;
    let mut handle = HnswIndexHandle::new(TEST_DIM, small_capacity).expect("index creation must succeed");
    for i in 0..small_capacity {
        handle.add(i as u64, &normalized_vector(i as f32, TEST_DIM)).unwrap();
    }
    let result = handle.add(99, &normalized_vector(99.0, TEST_DIM));
    assert!(matches!(result, Err(HnswError::Full { .. })));
    assert_eq!(handle.len(), 3);
}

#[test]
fn index_rebuild_keys_the_matrix_rows_in_order() {
    let num_vectors = 10;
    let mut matrix = Vec::with_capacity(num_vectors * TEST_DIM);
    for i in 0..num_vectors {
        matrix.extend_from_slice(&normalized_vector(i as f32 * 10.0, TEST_DIM));
    }
    let handle = HnswIndexHandle::rebuild(TEST_DIM, TEST_CAPACITY, &matrix).expect("rebuild must succeed");
    assert_eq!(handle.len(), num_vectors);
    for (i, (key, v)) in handle.entries().iter().enumerate() {
        assert_eq!(*key, i as u64);
        assert_eq!(&v[..], &matrix[i * TEST_DIM..(i + 1) * TEST_DIM]);
    }
    assert!(matches!(HnswIndexHandle::rebuild(TEST_DIM, 5, &matrix), Err(HnswError::Full { capacity: 5 })));
    assert!(handle.check_dimension(TEST_DIM).is_ok());
}
