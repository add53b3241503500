//! What setup asks of the Vulkan API: the instance's version, extensions and
//! layers, the diagnostic sink's filter, and the single graphics queue.
use vstd::prelude::*;
use crate::vkconst::{
    all_message_kinds, api_version_1_0, debug_utils_extension_name, vk_false,
    warning_and_error_severities,
};

verus! {

/// The validation layer every instance is created with.
pub open spec fn validation_layer() -> Seq<char> {
    "VK_LAYER_KHRONOS_validation"@
}

/// The parameters of instance creation.
pub struct InstanceRequest {
    /// The requested API version, as Vulkan packs it.
    pub api_version: u32,
    pub extensions: Vec<String>,
    pub layers: Vec<String>,
}

/// The messages the diagnostic sink subscribes to, as raw Vulkan flag bits.
#[derive(PartialEq, Eq, Structural, Clone, Copy, Debug)]
pub struct SinkFilter {
    pub severities: u32,
    pub kinds: u32,
}

/// The queue requested from the logical device.
#[derive(PartialEq, Eq, Structural, Clone, Copy, Debug)]
pub struct QueueRequest {
    pub family: usize,
    pub count: u32,
}

/// Builds the instance request: Vulkan 1.0, the window system's surface
/// extensions followed by the debug-utils extension, and the validation layer.
pub fn instance_request(window_extensions: Vec<String>) -> (r: InstanceRequest)
    ensures
        r.api_version == 0x0040_0000u32,
        r.extensions@.len() == window_extensions@.len() + 1,
        forall|i: int| 0 <= i < window_extensions@.len() ==> r.extensions@[i] == window_extensions@[i],
        r.extensions@.last()@ == "VK_EXT_debug_utils"@,
        r.layers@.len() == 1,
        r.layers@[0]@ == validation_layer(),
{
    let mut extensions = window_extensions;
    extensions.push(debug_utils_extension_name());
    let mut layers: Vec<String> = Vec::new();
    layers.push("VK_LAYER_KHRONOS_validation".to_owned());
    InstanceRequest { api_version: api_version_1_0(), extensions, layers }
}

/// The sink listens to warnings and errors of the general, validation and
/// performance kinds.
pub fn sink_filter() -> (r: SinkFilter)
    ensures
        r.severities == 0x1100u32,
        r.kinds == 0x7u32,
{
    SinkFilter { severities: warning_and_error_severities(), kinds: all_message_kinds() }
}

/// Exactly one queue from the chosen family.
pub fn queue_request(family: usize) -> (r: QueueRequest)
    ensures
        r == (QueueRequest { family, count: 1 }),
{
    QueueRequest { family, count: 1 }
}

/// The value the diagnostic callback hands back to the driver: always
/// `VK_FALSE`, so no call is ever aborted, whatever the message's severity
/// and kinds.
pub fn diagnostic_verdict(severity: u32, kinds: u32) -> (r: u32)
    ensures
        r == 0u32,
{
    vk_false()
}

} // verus!
