//! Verified core of a minimal graphics-and-compute setup sequence.
//!
//! The library models the two decision-making components of the program:
//! a hardware selector, which scans the physical devices an instance
//! exposes for the first queue family that accepts graphics commands,
//! and a buffer provisioner, which matches a buffer's memory needs
//! against a device's memory-type table and tracks the allocations and
//! mappings it hands out.  The surrounding process (driver loading,
//! instance and device creation, the native calls themselves) lives
//! outside the library and feeds it plain values.

pub mod config;
pub mod flags;
pub mod hardware;
pub mod memory;
pub mod provision;
pub mod version;
