//! Startup configuration: validation toggling and name lists.
//!
//! The program decides once, at startup, which layers and extensions to
//! enable on the instance and on the logical device.  With validation
//! requested, the debug-utils extension and the Khronos validation layer
//! are enabled; without it every list stays empty.

use vstd::prelude::*;

verus! {

/// Layer and extension names resolved once at startup and passed
/// explicitly into instance and device construction.
pub struct SetupConfig {
    /// Whether validation was requested.
    pub enable_validation: bool,
    /// Layer names enabled on the instance.
    pub instance_layers: Vec<String>,
    /// Extension names enabled on the instance.
    pub instance_extensions: Vec<String>,
    /// Layer names enabled on the logical device.
    pub device_layers: Vec<String>,
    /// Extension names enabled on the logical device.
    pub device_extensions: Vec<String>,
}

/// Name of the Khronos validation layer.
pub fn validation_layer_name() -> (s: String)
    ensures
        s@ == "VK_LAYER_KHRONOS_validation"@,
{
    "VK_LAYER_KHRONOS_validation".to_owned()
}

/// Name of the debug-utils instance extension.
pub fn debug_utils_extension_name() -> (s: String)
    ensures
        s@ == "VK_EXT_debug_utils"@,
{
    "VK_EXT_debug_utils".to_owned()
}

/// Resolves the startup configuration for the given validation choice.
///
/// With validation on, the instance gains the debug-utils extension and
/// the validation layer, and the device gains the validation layer too;
/// with validation off, every list is empty.  No device extension is
/// ever enabled.
pub fn resolve_setup_config(enable_validation: bool) -> (c: SetupConfig)
    ensures
        c.enable_validation == enable_validation,
        enable_validation ==> {
            &&& c.instance_layers@.len() == 1
            &&& c.instance_layers@[0]@ == "VK_LAYER_KHRONOS_validation"@
            &&& c.instance_extensions@.len() == 1
            &&& c.instance_extensions@[0]@ == "VK_EXT_debug_utils"@
            &&& c.device_layers@.len() == 1
            &&& c.device_layers@[0]@ == "VK_LAYER_KHRONOS_validation"@
        },
        !enable_validation ==> {
            &&& c.instance_layers@.len() == 0
            &&& c.instance_extensions@.len() == 0
            &&& c.device_layers@.len() == 0
        },
        c.device_extensions@.len() == 0,
{
    let mut instance_layers: Vec<String> = Vec::new();
    let mut instance_extensions: Vec<String> = Vec::new();
    let mut device_layers: Vec<String> = Vec::new();
    let device_extensions: Vec<String> = Vec::new();
    if enable_validation {
        instance_extensions.push(debug_utils_extension_name());
        instance_layers.push(validation_layer_name());
        device_layers.push(validation_layer_name());
    }
    SetupConfig {
        enable_validation,
        instance_layers,
        instance_extensions,
        device_layers,
        device_extensions,
    }
}

} // verus!
