//! Packing of application and engine version numbers.
//!
//! The native API encodes a semantic version as a single 32-bit word:
//! ten bits of major, ten bits of minor and twelve bits of patch.

use vstd::prelude::*;

verus! {

/// Highest admissible major or minor version number, exclusive.
pub const VERSION_MAJOR_MINOR_LIMIT: u32 = 0x400;

/// Highest admissible patch version number, exclusive.
pub const VERSION_PATCH_LIMIT: u32 = 0x1000;

/// The packed word that stands for version `major.minor.patch`.
pub open spec fn version_word(major: u32, minor: u32, patch: u32) -> int {
    major * 0x400000 + minor * 0x1000 + patch
}

/// Packs a version triple into the single word the native API expects.
pub fn make_version(major: u32, minor: u32, patch: u32) -> (v: u32)
    requires
        major < VERSION_MAJOR_MINOR_LIMIT,
        minor < VERSION_MAJOR_MINOR_LIMIT,
        patch < VERSION_PATCH_LIMIT,
    ensures
        v == version_word(major, minor, patch),
{
    let v = (major << 22u32) | (minor << 12u32) | patch;
    proof {
        assert((major << 22u32) | (minor << 12u32) | patch
            == major * 0x400000 + minor * 0x1000 + patch) by (bit_vector)
            requires
                major < 0x400u32,
                minor < 0x400u32,
                patch < 0x1000u32,
        ;
    }
    v
}

} // verus!
