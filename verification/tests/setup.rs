use gpu_setup::config::{
    debug_utils_extension_name, resolve_setup_config, validation_layer_name,
};
use gpu_setup::flags::{contains_all_flags, MEMORY_HOST_COHERENT, MEMORY_HOST_VISIBLE};
use gpu_setup::version::make_version;

#[test]
fn version_one_packs_to_major_field() {
    assert_eq!(make_version(1, 0, 0), 0x400000);
}

#[test]
fn version_fields_pack_in_order() {
    assert_eq!(make_version(1, 2, 3), (1 << 22) | (2 << 12) | 3);
    assert_eq!(make_version(0, 0, 0), 0);
    assert_eq!(make_version(1023, 1023, 4095), u32::MAX);
}

#[test]
fn flag_containment_checks_all_bits() {
    assert!(contains_all_flags(
        MEMORY_HOST_VISIBLE | MEMORY_HOST_COHERENT,
        MEMORY_HOST_VISIBLE
    ));
    assert!(!contains_all_flags(
        MEMORY_HOST_VISIBLE,
        MEMORY_HOST_VISIBLE | MEMORY_HOST_COHERENT
    ));
    assert!(contains_all_flags(0, 0));
}

#[test]
fn config_with_validation_enables_layer_and_extension() {
    let c = resolve_setup_config(true);
    assert!(c.enable_validation);
    assert_eq!(c.instance_layers, vec![validation_layer_name()]);
    assert_eq!(c.instance_extensions, vec![debug_utils_extension_name()]);
    assert_eq!(c.device_layers, vec![validation_layer_name()]);
    assert!(c.device_extensions.is_empty());
}

#[test]
fn config_without_validation_is_empty() {
    let c = resolve_setup_config(false);
    assert!(!c.enable_validation);
    assert!(c.instance_layers.is_empty());
    assert!(c.instance_extensions.is_empty());
    assert!(c.device_layers.is_empty());
    assert!(c.device_extensions.is_empty());
}

#[test]
fn layer_and_extension_names_are_fixed() {
    assert_eq!(validation_layer_name(), "VK_LAYER_KHRONOS_validation");
    assert_eq!(debug_utils_extension_name(), "VK_EXT_debug_utils");
}
