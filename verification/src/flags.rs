//! Capability and property bit flags, modelled as plain `u32` words.
//!
//! Queue-family capability flags and memory-property flags arrive from
//! the native API as bit masks; the library keeps them as `u32` values
//! so that contracts can speak of individual bits directly.

use vstd::prelude::*;

verus! {

/// Queue-family flag: the family accepts graphics command submission.
pub const QUEUE_GRAPHICS: u32 = 0x1;

/// Queue-family flag: the family accepts compute command submission.
pub const QUEUE_COMPUTE: u32 = 0x2;

/// Queue-family flag: the family accepts transfer operations.
pub const QUEUE_TRANSFER: u32 = 0x4;

/// Buffer-usage flag: the buffer backs uniform-style descriptor reads.
pub const BUFFER_USAGE_UNIFORM: u32 = 0x10;

/// Memory-property flag: memory local to the device.
pub const MEMORY_DEVICE_LOCAL: u32 = 0x1;

/// Memory-property flag: memory mappable into the host address space.
pub const MEMORY_HOST_VISIBLE: u32 = 0x2;

/// Memory-property flag: host writes are visible without explicit flushes.
pub const MEMORY_HOST_COHERENT: u32 = 0x4;

/// Memory-property flag: memory cached on the host.
pub const MEMORY_HOST_CACHED: u32 = 0x8;

/// A flag word `flags` carries every bit set in `required`.
pub open spec fn has_all_flags(flags: u32, required: u32) -> bool {
    flags & required == required
}

/// Tests whether `flags` carries every bit set in `required`.
pub fn contains_all_flags(flags: u32, required: u32) -> (r: bool)
    ensures
        r == has_all_flags(flags, required),
{
    flags & required == required
}

} // verus!
