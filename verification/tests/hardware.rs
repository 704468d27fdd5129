use gpu_setup::flags::{QUEUE_COMPUTE, QUEUE_GRAPHICS, QUEUE_TRANSFER};
use gpu_setup::hardware::{select_graphics_queue, PhysicalDeviceInfo, SelectError};

fn device(handle: u64, families: Vec<u32>) -> PhysicalDeviceInfo {
    PhysicalDeviceInfo {
        handle,
        queue_family_flags: families,
    }
}

#[test]
fn no_devices_fails() {
    let devices: Vec<PhysicalDeviceInfo> = Vec::new();
    let r = select_graphics_queue(&devices);
    assert_eq!(r, Err(SelectError::NoSuitableDevice));
}

#[test]
fn no_graphics_family_anywhere_fails() {
    let devices = vec![
        device(1, vec![QUEUE_TRANSFER, QUEUE_COMPUTE]),
        device(2, vec![QUEUE_COMPUTE]),
        device(3, Vec::new()),
    ];
    let r = select_graphics_queue(&devices);
    assert_eq!(r, Err(SelectError::NoSuitableDevice));
}

#[test]
fn select_error_message() {
    let e = SelectError::NoSuitableDevice;
    assert_eq!(e.message(), "No suitable device found");
}

#[test]
fn one_device_graphics_compute_at_index_zero() {
    let devices = vec![device(42, vec![QUEUE_GRAPHICS | QUEUE_COMPUTE])];
    let s = select_graphics_queue(&devices).unwrap();
    assert_eq!(s.device_index, 0);
    assert_eq!(s.queue_family_index, 0);
    assert_eq!(s.device_handle, 42);
}

#[test]
fn transfer_only_then_graphics_picks_index_one() {
    let devices = vec![device(7, vec![QUEUE_TRANSFER, QUEUE_GRAPHICS])];
    let s = select_graphics_queue(&devices).unwrap();
    assert_eq!(s.device_index, 0);
    assert_eq!(s.queue_family_index, 1);
    assert_eq!(s.device_handle, 7);
}

#[test]
fn multiple_graphics_families_picks_lowest_index() {
    let devices = vec![device(
        9,
        vec![
            QUEUE_TRANSFER,
            QUEUE_GRAPHICS,
            QUEUE_GRAPHICS | QUEUE_COMPUTE,
        ],
    )];
    let s = select_graphics_queue(&devices).unwrap();
    assert_eq!(s.device_index, 0);
    assert_eq!(s.queue_family_index, 1);
}

#[test]
fn first_device_without_graphics_is_skipped() {
    let devices = vec![
        device(1, vec![QUEUE_TRANSFER]),
        device(2, vec![QUEUE_COMPUTE, QUEUE_GRAPHICS]),
        device(3, vec![QUEUE_GRAPHICS]),
    ];
    let s = select_graphics_queue(&devices).unwrap();
    assert_eq!(s.device_index, 1);
    assert_eq!(s.queue_family_index, 1);
    assert_eq!(s.device_handle, 2);
}

#[test]
fn device_with_no_families_is_skipped() {
    let devices = vec![device(1, Vec::new()), device(2, vec![QUEUE_GRAPHICS])];
    let s = select_graphics_queue(&devices).unwrap();
    assert_eq!(s.device_index, 1);
    assert_eq!(s.queue_family_index, 0);
    assert_eq!(s.device_handle, 2);
}
