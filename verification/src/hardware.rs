//! Hardware selection: the first queue family that accepts graphics work.
//!
//! The instance reports its physical devices as plain snapshots: an
//! opaque handle value and, per queue family, the family's capability
//! flag word.  The selector scans the devices in the order they were
//! reported and, within a device, the families in index order, and
//! returns the first pair whose flags include graphics submission.

use vstd::prelude::*;
use crate::flags::{QUEUE_GRAPHICS, has_all_flags, contains_all_flags};

verus! {

/// Snapshot of one physical device as the instance reported it.
pub struct PhysicalDeviceInfo {
    /// Opaque handle value standing for the device.
    pub handle: u64,
    /// Capability flag word of each queue family, in index order.
    pub queue_family_flags: Vec<u32>,
}

/// The device and queue family chosen for graphics submission.
#[derive(PartialEq, Eq, Structural, Clone, Copy, Debug)]
pub struct GraphicsQueueSelection {
    /// Position of the chosen device in the reported order.
    pub device_index: usize,
    /// Index of the chosen queue family on that device.
    pub queue_family_index: u32,
    /// Handle value of the chosen device.
    pub device_handle: u64,
}

/// Failure of the hardware selector.
#[derive(PartialEq, Eq, Structural, Clone, Copy, Debug)]
pub enum SelectError {
    /// No reported device exposes a graphics-capable queue family.
    NoSuitableDevice,
}

impl SelectError {
    /// The human-readable description of the failure.
    pub fn message(&self) -> (m: String)
        ensures
            m@ == "No suitable device found"@,
    {
        "No suitable device found".to_owned()
    }
}

/// The flag word describes a family that accepts graphics commands.
pub open spec fn is_graphics_family(flags_word: u32) -> bool {
    has_all_flags(flags_word, QUEUE_GRAPHICS)
}

/// The device has at least one graphics-capable queue family.
pub open spec fn device_has_graphics_family(device: PhysicalDeviceInfo) -> bool {
    exists|j: int|
        0 <= j < device.queue_family_flags@.len() && is_graphics_family(
            device.queue_family_flags@[j],
        )
}

/// At least one reported device has a graphics-capable queue family.
pub open spec fn some_device_has_graphics(devices: Seq<PhysicalDeviceInfo>) -> bool {
    exists|i: int| 0 <= i < devices.len() && device_has_graphics_family(devices[i])
}

/// The selection is the first graphics-capable pair under the scan
/// order: devices in reported order, families in index order.
pub open spec fn first_graphics_selection(
    devices: Seq<PhysicalDeviceInfo>,
    s: GraphicsQueueSelection,
) -> bool {
    &&& 0 <= s.device_index < devices.len()
    &&& 0 <= s.queue_family_index < devices[s.device_index as int].queue_family_flags@.len()
    &&& is_graphics_family(
        devices[s.device_index as int].queue_family_flags@[s.queue_family_index as int],
    )
    &&& forall|i: int| 0 <= i < s.device_index ==> !device_has_graphics_family(devices[i])
    &&& forall|j: int|
        0 <= j < s.queue_family_index ==> !is_graphics_family(
            devices[s.device_index as int].queue_family_flags@[j],
        )
    &&& s.device_handle == devices[s.device_index as int].handle
}

/// Scans the reported devices for the first graphics-capable queue
/// family and returns its (device, family) pair.
///
/// The scan is first-match, not best-match: devices in reported order,
/// families in index order.  It fails exactly when no device exposes a
/// graphics-capable family.
pub fn select_graphics_queue(devices: &Vec<PhysicalDeviceInfo>) -> (r: Result<
    GraphicsQueueSelection,
    SelectError,
>)
    requires
        forall|i: int|
            0 <= i < devices@.len() ==> (#[trigger] devices@[i]).queue_family_flags@.len()
                <= u32::MAX,
    ensures
        r is Ok <==> some_device_has_graphics(devices@),
        r matches Ok(s) ==> first_graphics_selection(devices@, s),
        r is Err ==> r == Err::<GraphicsQueueSelection, SelectError>(SelectError::NoSuitableDevice),
{
    let device_count = devices.len();
    let mut i: usize = 0;
    while i < device_count
        invariant
            device_count == devices@.len(),
            0 <= i <= device_count,
            forall|k: int| 0 <= k < i ==> !device_has_graphics_family(devices@[k]),
            forall|k: int|
                0 <= k < devices@.len() ==> (#[trigger] devices@[k]).queue_family_flags@.len()
                    <= u32::MAX,
        decreases device_count - i,
    {
        let family_count = devices[i].queue_family_flags.len();
        let mut j: usize = 0;
        while j < family_count
            invariant
                device_count == devices@.len(),
                0 <= i < device_count,
                family_count == devices@[i as int].queue_family_flags@.len(),
                family_count <= u32::MAX,
                0 <= j <= family_count,
                forall|k: int|
                    0 <= k < j ==> !is_graphics_family(
                        devices@[i as int].queue_family_flags@[k],
                    ),
                forall|k: int| 0 <= k < i ==> !device_has_graphics_family(devices@[k]),
            decreases family_count - j,
        {
            if contains_all_flags(devices[i].queue_family_flags[j], QUEUE_GRAPHICS) {
                return Ok(
                    GraphicsQueueSelection {
                        device_index: i,
                        queue_family_index: j as u32,
                        device_handle: devices[i].handle,
                    },
                );
            }
            j += 1;
        }
        proof {
            assert(!device_has_graphics_family(devices@[i as int]));
        }
        i += 1;
    }
    Err(SelectError::NoSuitableDevice)
}

/// The first-match policy is deterministic: a fixed reported order
/// admits exactly one selection.
pub proof fn lemma_selection_deterministic(
    devices: Seq<PhysicalDeviceInfo>,
    s1: GraphicsQueueSelection,
    s2: GraphicsQueueSelection,
)
    requires
        first_graphics_selection(devices, s1),
        first_graphics_selection(devices, s2),
    ensures
        s1 == s2,
{
    if s1.device_index < s2.device_index {
        assert(device_has_graphics_family(devices[s1.device_index as int]));
        assert(false);
    }
    if s2.device_index < s1.device_index {
        assert(device_has_graphics_family(devices[s2.device_index as int]));
        assert(false);
    }
    assert(s1.device_index == s2.device_index);
    assert(s1.queue_family_index == s2.queue_family_index);
}

} // verus!
