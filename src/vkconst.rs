//! The few values this library takes from the Vulkan bindings.
use vstd::prelude::*;
use ash::vk;

verus! {

/// The raw bit that marks a queue family as graphics-capable.
pub open spec fn graphics_bit() -> u32 {
    1u32
}

/// Whether raw queue flags include graphics support.
pub open spec fn supports_graphics(bits: u32) -> bool {
    bits & graphics_bit() == graphics_bit()
}

/// Relies on ash's `vk::QueueFlags::contains` with `vk::QueueFlags::GRAPHICS`
/// (raw bit `0b1`): `contains` tests `self & other == other`.
#[verifier::external_body]
pub(crate) fn queue_flags_have_graphics(bits: u32) -> (r: bool)
    ensures
        r == supports_graphics(bits),
{
    vk::QueueFlags::from_raw(bits).contains(vk::QueueFlags::GRAPHICS)
}

/// Relies on ash's `vk::API_VERSION_1_0`, defined as `make_api_version(0, 1, 0, 0)`,
/// that is `1 << 22`.
#[verifier::external_body]
pub(crate) fn api_version_1_0() -> (r: u32)
    ensures
        r == 0x0040_0000u32,
{
    vk::API_VERSION_1_0
}

/// Relies on ash's `vk::DebugUtilsMessageSeverityFlagsEXT::{WARNING, ERROR}`
/// (raw bits `0x100` and `0x1000`) and their `|`.
#[verifier::external_body]
pub(crate) fn warning_and_error_severities() -> (r: u32)
    ensures
        r == 0x1100u32,
{
    (vk::DebugUtilsMessageSeverityFlagsEXT::WARNING | vk::DebugUtilsMessageSeverityFlagsEXT::ERROR).as_raw()
}

/// Relies on ash's `vk::DebugUtilsMessageTypeFlagsEXT::{GENERAL, VALIDATION, PERFORMANCE}`
/// (raw bits `0b1`, `0b10`, `0b100`) and their `|`.
#[verifier::external_body]
pub(crate) fn all_message_kinds() -> (r: u32)
    ensures
        r == 0x7u32,
{
    (vk::DebugUtilsMessageTypeFlagsEXT::GENERAL | vk::DebugUtilsMessageTypeFlagsEXT::VALIDATION
        | vk::DebugUtilsMessageTypeFlagsEXT::PERFORMANCE).as_raw()
}

/// Relies on ash's `vk::FALSE`, the `Bool32` value `0`.
#[verifier::external_body]
pub(crate) fn vk_false() -> (r: u32)
    ensures
        r == 0u32,
{
    vk::FALSE
}

/// Relies on ash's `ash::extensions::ext::DebugUtils::name()`, the C string
/// `"VK_EXT_debug_utils"`.
#[verifier::external_body]
pub(crate) fn debug_utils_extension_name() -> (r: String)
    ensures
        r@ == "VK_EXT_debug_utils"@,
{
    ash::extensions::ext::DebugUtils::name().to_string_lossy().into_owned()
}

} // verus!
