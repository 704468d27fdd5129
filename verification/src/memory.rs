//! Memory-type matching: the allocator's preference policy.
//!
//! A device reports its memory types as a table of property flag
//! words, at most 32 entries, and each resource reports a mask of the
//! table indices it can live in.  A preference names the properties a
//! type must carry and the properties it had better carry; the finder
//! returns the first admissible type, favouring the preferred ones.

use vstd::prelude::*;
use crate::flags::{
    MEMORY_HOST_VISIBLE, MEMORY_HOST_COHERENT, MEMORY_DEVICE_LOCAL, has_all_flags,
    contains_all_flags,
};

verus! {

/// Number of entries a memory-type table can hold at most.
pub const MEMORY_TYPE_TABLE_LIMIT: usize = 32;

/// The properties a memory type must and should carry.
#[derive(PartialEq, Eq, Structural, Clone, Copy, Debug)]
pub struct MemoryPreference {
    /// Properties a compatible type must carry.
    pub required: u32,
    /// Properties a compatible type is favoured for carrying.
    pub preferred: u32,
}

impl MemoryPreference {
    /// The policy for small, frequently updated, directly written
    /// resources: the type must be host-visible and host-coherent, and
    /// device-local types are favoured.
    pub fn dynamic() -> (p: MemoryPreference)
        ensures
            p.required == MEMORY_HOST_VISIBLE | MEMORY_HOST_COHERENT,
            p.preferred == MEMORY_DEVICE_LOCAL,
    {
        MemoryPreference {
            required: MEMORY_HOST_VISIBLE | MEMORY_HOST_COHERENT,
            preferred: MEMORY_DEVICE_LOCAL,
        }
    }
}

/// Table entry `i` is admissible: the resource's mask allows it and it
/// carries every required property.
pub open spec fn compatible_memory_type(
    types: Seq<u32>,
    allowed_mask: u32,
    required: u32,
    i: int,
) -> bool {
    &&& 0 <= i < types.len()
    &&& allowed_mask & (1u32 << (i as u32)) != 0
    &&& has_all_flags(types[i], required)
}

/// Some table entry is admissible for the mask and requirements.
pub open spec fn some_compatible_memory_type(
    types: Seq<u32>,
    allowed_mask: u32,
    required: u32,
) -> bool {
    exists|i: int| compatible_memory_type(types, allowed_mask, required, i)
}

/// Table entry `i` is admissible and also carries every preferred
/// property.
pub open spec fn preferred_memory_type(
    types: Seq<u32>,
    allowed_mask: u32,
    pref: MemoryPreference,
    i: int,
) -> bool {
    &&& compatible_memory_type(types, allowed_mask, pref.required, i)
    &&& has_all_flags(types[i], pref.preferred)
}

/// Entry `i` is the one the finder picks: the first preferred entry
/// where one exists, otherwise the first admissible entry.
pub open spec fn chosen_memory_type(
    types: Seq<u32>,
    allowed_mask: u32,
    pref: MemoryPreference,
    i: int,
) -> bool {
    &&& compatible_memory_type(types, allowed_mask, pref.required, i)
    &&& if exists|k: int| preferred_memory_type(types, allowed_mask, pref, k) {
        &&& preferred_memory_type(types, allowed_mask, pref, i)
        &&& forall|k: int| 0 <= k < i ==> !preferred_memory_type(types, allowed_mask, pref, k)
    } else {
        forall|k: int| 0 <= k < i ==> !compatible_memory_type(types, allowed_mask, pref.required, k)
    }
}

/// Finds the memory type for the preference: the first admissible
/// entry that carries the preferred properties, or, when none does,
/// the first admissible entry of all.  Returns `None` exactly when no
/// entry is admissible.
pub fn find_memory_type(types: &Vec<u32>, allowed_mask: u32, pref: MemoryPreference) -> (r: Option<
    u32,
>)
    requires
        types@.len() <= MEMORY_TYPE_TABLE_LIMIT,
    ensures
        r is Some <==> some_compatible_memory_type(types@, allowed_mask, pref.required),
        r matches Some(i) ==> chosen_memory_type(types@, allowed_mask, pref, i as int),
{
    let count = types.len();
    let mut first_compatible: Option<u32> = None;
    let mut i: usize = 0;
    while i < count
        invariant
            count == types@.len(),
            count <= MEMORY_TYPE_TABLE_LIMIT,
            0 <= i <= count,
            forall|k: int| 0 <= k < i ==> !preferred_memory_type(types@, allowed_mask, pref, k),
            first_compatible matches Some(c) ==> {
                &&& compatible_memory_type(types@, allowed_mask, pref.required, c as int)
                &&& forall|k: int|
                    0 <= k < c ==> !compatible_memory_type(types@, allowed_mask, pref.required, k)
            },
            first_compatible is None ==> forall|k: int|
                0 <= k < i ==> !compatible_memory_type(types@, allowed_mask, pref.required, k),
            first_compatible matches Some(c) ==> 0 <= c < i,
        decreases count - i,
    {
        let allowed = allowed_mask & (1u32 << (i as u32)) != 0;
        if allowed && contains_all_flags(types[i], pref.required) {
            if contains_all_flags(types[i], pref.preferred) {
                proof {
                    assert(compatible_memory_type(types@, allowed_mask, pref.required, i as int));
                    assert(preferred_memory_type(types@, allowed_mask, pref, i as int));
                }
                return Some(i as u32);
            }
            if first_compatible.is_none() {
                first_compatible = Some(i as u32);
            }
        }
        i += 1;
    }
    first_compatible
}

/// The finder's policy is deterministic: a fixed table, mask and
/// preference admit exactly one chosen entry.
pub proof fn lemma_chosen_memory_type_unique(
    types: Seq<u32>,
    allowed_mask: u32,
    pref: MemoryPreference,
    i1: int,
    i2: int,
)
    requires
        chosen_memory_type(types, allowed_mask, pref, i1),
        chosen_memory_type(types, allowed_mask, pref, i2),
    ensures
        i1 == i2,
{
}

} // verus!
