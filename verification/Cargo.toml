[package]
name = "nexus"
version = "0.1.0"
edition = "2021"
publish = false

[dependencies]
parking_lot = "0.12"
once_cell = "1"
arc-swap = "1"
dashmap = "5"
lru = "0.12"
xxhash-rust = { version = "0.8", features = ["xxh3"] }
thiserror = "1"
libc = "0.2"
