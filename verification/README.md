# nexus

The shared-memory runtime of the NEXUS cognitive kernel: lock-free
atomics, ring buffers, read-write lock protocols, timers, error types, and
the typed-buffer memory system (slot layouts, the event log, the
observation ring, the slab allocator, the mutable and immutable regions,
the embedding cache).

## Layout

- `src/` is the library, written in Verus. Every function there carries a
  contract and is proved against it.
  - `atomic`: owned models of the atomic cells, counters and timestamps.
  - `ring_buffer`: MPMC, SPSC, bounded and typed ring buffers (FIFO order
    is part of each contract).
  - `rwlock`: the state-word protocol of the fair read-write lock, and the
    bookkeeping of the timed, instrumented and reader-priority locks.
  - `timing`: timestamps, drift-corrected and heartbeat timers, deadlines,
    the adaptive timer, wall-clock time and ISO 8601 text.
  - `error`: error kinds, severities, error chains and their texts.
  - `memory`: slot layouts, the event log with its emergency buffer, the
    observation ring, the slab allocator, the mutable region, the
    ping-pong publication of the immutable region, the compute region's
    capability matrix and its write window, capability tokens, the byte
    layout of the world model's scalar block, the embedding cache, and the
    nearest-neighbour index's store of keyed vectors.
  - `outside`: the trusted declarations of what the library calls in
    `std` and in `dashmap`, `lru` and `xxhash-rust`, each with the contract
    that the library relies on.
- `app/` is ordinary Rust around the library: memory mapping and page
  protection, the blocking locks and their guards, process-wide clocks and
  stores, file reads, floating-point ratios and index scoring, and error
  types that need `Display` and `std::error::Error`.
- `tests/` runs the library on concrete values.
