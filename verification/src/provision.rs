//! Buffer provisioning: creation, allocation and mapping, with the
//! allocator's bookkeeping.
//!
//! The allocator is built once from the device's memory-type table and
//! is then asked, per buffer, for an allocation matched to a memory
//! preference and a mapping over the allocation's full byte range.  It
//! hands out fresh handle values and non-overlapping mapped ranges,
//! and its history records every triple it ever produced.

use vstd::prelude::*;
use crate::memory::{
    MemoryPreference, MEMORY_TYPE_TABLE_LIMIT, chosen_memory_type, some_compatible_memory_type,
    find_memory_type,
};

verus! {

/// Size, usage and sharing mode a buffer resource is created with.
#[derive(PartialEq, Eq, Structural, Clone, Copy, Debug)]
pub struct BufferParams {
    /// Byte size of the buffer.
    pub size: u64,
    /// Usage flag word of the buffer.
    pub usage: u32,
    /// Whether the buffer is owned by a single queue family at a time.
    pub exclusive_sharing: bool,
}

/// A view over a span of the model address space.
#[derive(PartialEq, Eq, Structural, Clone, Copy, Debug)]
pub struct MappedRange {
    /// First address of the span.
    pub base: u64,
    /// Byte length of the span.
    pub len: u64,
}

/// One provisioned buffer: its handles, its memory type and its
/// mapping.
#[derive(PartialEq, Eq, Structural, Clone, Copy, Debug)]
pub struct ProvisionedBuffer {
    /// Handle value of the buffer resource.
    pub buffer_id: u64,
    /// Handle value of the memory allocation bound to the buffer.
    pub memory_id: u64,
    /// Index of the memory type the allocation was placed in.
    pub memory_type_index: u32,
    /// The parameters the buffer was created with.
    pub params: BufferParams,
    /// Mapping over the allocation's full byte range.
    pub mapped: MappedRange,
}

/// Opaque provisioning failure.  Buffer creation, allocation and
/// mapping failures are not told apart.
#[derive(PartialEq, Eq, Structural, Clone, Copy, Debug)]
pub struct ProvisionError {}

impl ProvisionError {
    /// The human-readable description of the failure.
    pub fn message(&self) -> (m: String)
        ensures
            m@ == "buffer provisioning failed"@,
    {
        "buffer provisioning failed".to_owned()
    }
}

/// Ghost record of one provisioned triple.
pub ghost struct ProvisionRecord {
    /// Handle value of the buffer resource.
    pub buffer_id: u64,
    /// Handle value of the memory allocation.
    pub memory_id: u64,
    /// First address of the mapped span.
    pub base: u64,
    /// Byte length of the mapped span.
    pub len: u64,
}

/// The mapped span a history record stands for.
pub open spec fn record_range(r: ProvisionRecord) -> MappedRange {
    MappedRange { base: r.base, len: r.len }
}

/// Two spans do not overlap.
pub open spec fn ranges_disjoint(a: MappedRange, b: MappedRange) -> bool {
    a.base + a.len <= b.base || b.base + b.len <= a.base
}

/// Mathematical state of the allocator: the device's memory-type
/// table, the next fresh handle values and offset, and the history of
/// every provisioned triple.
pub ghost struct AllocatorModel {
    /// Property flag word of each memory type, in table order.
    pub memory_types: Seq<u32>,
    /// Next unissued buffer handle value.
    pub next_buffer_id: u64,
    /// Next unissued memory handle value.
    pub next_memory_id: u64,
    /// First address of the model address space not yet handed out.
    pub next_offset: u64,
    /// Every provisioned triple, oldest first.
    pub history: Seq<ProvisionRecord>,
}

impl AllocatorModel {
    /// Well-formedness: the table fits the mask width, issued handle
    /// values stay below the fresh ones, issued spans lie below the
    /// fresh offset, and the history is ordered by handle value and by
    /// address.
    pub open spec fn wf(self) -> bool {
        &&& self.memory_types.len() <= MEMORY_TYPE_TABLE_LIMIT
        &&& forall|k: int|
            0 <= k < self.history.len() ==> (#[trigger] self.history[k]).buffer_id
                < self.next_buffer_id
        &&& forall|k: int|
            0 <= k < self.history.len() ==> (#[trigger] self.history[k]).memory_id
                < self.next_memory_id
        &&& forall|k: int|
            0 <= k < self.history.len() ==> (#[trigger] self.history[k]).base
                + self.history[k].len <= self.next_offset
        &&& forall|k1: int, k2: int|
            0 <= k1 < k2 < self.history.len() ==> (#[trigger] self.history[k1]).buffer_id < (
            #[trigger] self.history[k2]).buffer_id
        &&& forall|k1: int, k2: int|
            0 <= k1 < k2 < self.history.len() ==> (#[trigger] self.history[k1]).memory_id < (
            #[trigger] self.history[k2]).memory_id
        &&& forall|k1: int, k2: int|
            0 <= k1 < k2 < self.history.len() ==> (#[trigger] self.history[k1]).base
                + self.history[k1].len <= (#[trigger] self.history[k2]).base
    }
}

/// The allocator can satisfy the request: some memory type is
/// admissible and fresh handle values and address space are left.
pub open spec fn can_provision(
    m: AllocatorModel,
    params: BufferParams,
    allowed_mask: u32,
    pref: MemoryPreference,
) -> bool {
    &&& some_compatible_memory_type(m.memory_types, allowed_mask, pref.required)
    &&& m.next_offset + params.size <= u64::MAX
    &&& m.next_buffer_id < u64::MAX
    &&& m.next_memory_id < u64::MAX
}

/// How one successful provisioning call relates the allocator states
/// before and after to what it returned.
pub open spec fn provision_ok(
    m: AllocatorModel,
    params: BufferParams,
    allowed_mask: u32,
    pref: MemoryPreference,
    m2: AllocatorModel,
    p: ProvisionedBuffer,
) -> bool {
    &&& chosen_memory_type(m.memory_types, allowed_mask, pref, p.memory_type_index as int)
    &&& p.buffer_id == m.next_buffer_id
    &&& p.memory_id == m.next_memory_id
    &&& p.params == params
    &&& p.mapped.base == m.next_offset
    &&& p.mapped.len == params.size
    &&& m2.memory_types == m.memory_types
    &&& m2.next_buffer_id == m.next_buffer_id + 1
    &&& m2.next_memory_id == m.next_memory_id + 1
    &&& m2.next_offset == m.next_offset + params.size
    &&& m2.history == m.history.push(
        ProvisionRecord {
            buffer_id: p.buffer_id,
            memory_id: p.memory_id,
            base: p.mapped.base,
            len: p.mapped.len,
        },
    )
}

/// The allocator: bookkeeping over a device's memory-type table.
pub struct Allocator {
    memory_types: Vec<u32>,
    next_buffer_id: u64,
    next_memory_id: u64,
    next_offset: u64,
    history: Ghost<Seq<ProvisionRecord>>,
}

impl View for Allocator {
    type V = AllocatorModel;

    closed spec fn view(&self) -> AllocatorModel {
        AllocatorModel {
            memory_types: self.memory_types@,
            next_buffer_id: self.next_buffer_id,
            next_memory_id: self.next_memory_id,
            next_offset: self.next_offset,
            history: self.history@,
        }
    }
}

impl Allocator {
    /// The allocator is in a state its constructor establishes and
    /// every provisioning call preserves.
    pub open spec fn wf(&self) -> bool {
        self@.wf()
    }

    /// Builds an allocator over the device's memory-type table, with
    /// nothing handed out yet.
    pub fn new(memory_types: Vec<u32>) -> (a: Allocator)
        requires
            memory_types@.len() <= MEMORY_TYPE_TABLE_LIMIT,
        ensures
            a.wf(),
            a@.memory_types == memory_types@,
            a@.next_buffer_id == 0,
            a@.next_memory_id == 0,
            a@.next_offset == 0,
            a@.history.len() == 0,
    {
        Allocator {
            memory_types,
            next_buffer_id: 0,
            next_memory_id: 0,
            next_offset: 0,
            history: Ghost(Seq::empty()),
        }
    }

    /// Creates a buffer of the requested size and usage, places an
    /// allocation for it in a memory type matched to the preference,
    /// and maps the allocation's full byte range.
    ///
    /// Succeeds exactly when the allocator can satisfy the request;
    /// the mapped range then covers exactly the requested size, the
    /// handle values are fresh, and the call is recorded.  On failure
    /// nothing is returned and the allocator is unchanged.
    pub fn provision_mapped_buffer(
        &mut self,
        params: BufferParams,
        allowed_mask: u32,
        pref: MemoryPreference,
    ) -> (r: Result<ProvisionedBuffer, ProvisionError>)
        requires
            old(self).wf(),
            params.size > 0,
        ensures
            final(self).wf(),
            r is Ok <==> can_provision(old(self)@, params, allowed_mask, pref),
            r matches Ok(p) ==> provision_ok(old(self)@, params, allowed_mask, pref, final(self)@, p),
            r is Err ==> final(self)@ == old(self)@,
    {
        let memory_type_index = match find_memory_type(&self.memory_types, allowed_mask, pref) {
            Some(i) => i,
            None => {
                return Err(ProvisionError {});
            },
        };
        if self.next_buffer_id == u64::MAX || self.next_memory_id == u64::MAX || params.size
            > u64::MAX - self.next_offset {
            return Err(ProvisionError {});
        }
        let buffer_id = self.next_buffer_id;
        let memory_id = self.next_memory_id;
        let base = self.next_offset;
        self.next_buffer_id = buffer_id + 1;
        self.next_memory_id = memory_id + 1;
        self.next_offset = base + params.size;
        self.history = Ghost(
            self.history@.push(
                ProvisionRecord { buffer_id, memory_id, base, len: params.size },
            ),
        );
        proof {
            let m0 = old(self)@;
            let m1 = self@;
            let n = m0.history.len() as int;
            assert forall|k: int| 0 <= k < m1.history.len() implies {
                &&& (#[trigger] m1.history[k]).buffer_id < m1.next_buffer_id
                &&& m1.history[k].memory_id < m1.next_memory_id
                &&& m1.history[k].base + m1.history[k].len <= m1.next_offset
            } by {
                if k < n {
                    assert(m1.history[k] == m0.history[k]);
                }
            }
            assert forall|k1: int, k2: int| 0 <= k1 < k2 < m1.history.len() implies {
                &&& (#[trigger] m1.history[k1]).buffer_id < (#[trigger] m1.history[k2]).buffer_id
                &&& m1.history[k1].memory_id < m1.history[k2].memory_id
                &&& m1.history[k1].base + m1.history[k1].len <= m1.history[k2].base
            } by {
                assert(m1.history[k1] == m0.history[k1]);
                if k2 < n {
                    assert(m1.history[k2] == m0.history[k2]);
                }
            }
            assert(m1.wf());
        }
        Ok(
            ProvisionedBuffer {
                buffer_id,
                memory_id,
                memory_type_index,
                params,
                mapped: MappedRange { base, len: params.size },
            },
        )
    }
}

/// Two back-to-back provisioning calls with the same parameters hand
/// out distinct buffer handles, distinct memory handles, and
/// non-overlapping mapped ranges.
pub proof fn lemma_back_to_back_provisions_independent(
    m0: AllocatorModel,
    m1: AllocatorModel,
    m2: AllocatorModel,
    params: BufferParams,
    allowed_mask: u32,
    pref: MemoryPreference,
    p1: ProvisionedBuffer,
    p2: ProvisionedBuffer,
)
    requires
        provision_ok(m0, params, allowed_mask, pref, m1, p1),
        provision_ok(m1, params, allowed_mask, pref, m2, p2),
        params.size > 0,
    ensures
        p1.buffer_id != p2.buffer_id,
        p1.memory_id != p2.memory_id,
        p1.mapped != p2.mapped,
        ranges_disjoint(p1.mapped, p2.mapped),
{
}

/// Any two provisioned triples the allocator ever recorded carry
/// distinct buffer handles, distinct memory handles, and
/// non-overlapping mapped ranges.
pub proof fn lemma_history_records_independent(m: AllocatorModel, k1: int, k2: int)
    requires
        m.wf(),
        0 <= k1 < m.history.len(),
        0 <= k2 < m.history.len(),
        k1 != k2,
    ensures
        m.history[k1].buffer_id != m.history[k2].buffer_id,
        m.history[k1].memory_id != m.history[k2].memory_id,
        ranges_disjoint(record_range(m.history[k1]), record_range(m.history[k2])),
{
}

} // verus!
