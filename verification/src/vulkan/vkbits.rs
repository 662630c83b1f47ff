//! The raw values of the Vulkan constants that the library's decisions use,
//! taken from `ash`. Flag sets are handled as their raw bit patterns and
//! enumerations as their raw integers; the driver's own reports come in the
//! same form.
use vstd::prelude::*;
use ash::vk;

verus! {

/// Whether two raw flag sets share a bit (what `intersects` of ash's flag types computes).
pub open spec fn intersects(a: u32, b: u32) -> bool {
    a & b != 0
}

/// Whether every bit of `b` is set in `a` (what `contains` of ash's flag types computes).
pub open spec fn contains(a: u32, b: u32) -> bool {
    a & b == b
}

/// Raw bits of the queue capabilities the library looks for.
pub struct QueueFlagBits {
    pub graphics: u32,
    pub compute: u32,
    pub transfer: u32,
}

/// Calls `as_raw` on ash's `vk::QueueFlags::{GRAPHICS, COMPUTE, TRANSFER}`;
/// ash defines them as the bits 1, 2 and 4.
#[verifier::external_body]
pub(crate) fn queue_flag_bits() -> (r: QueueFlagBits)
    ensures
        r.graphics == 1,
        r.compute == 2,
        r.transfer == 4,
{
    QueueFlagBits {
        graphics: vk::QueueFlags::GRAPHICS.as_raw(),
        compute: vk::QueueFlags::COMPUTE.as_raw(),
        transfer: vk::QueueFlags::TRANSFER.as_raw(),
    }
}

/// Raw bits of the memory properties the library asks for.
pub struct MemoryPropertyBits {
    pub device_local: u32,
    pub host_visible: u32,
    pub host_coherent: u32,
}

/// Calls `as_raw` on ash's `vk::MemoryPropertyFlags::{DEVICE_LOCAL, HOST_VISIBLE,
/// HOST_COHERENT}`; ash defines them as the bits 1, 2 and 4.
#[verifier::external_body]
pub(crate) fn memory_property_bits() -> (r: MemoryPropertyBits)
    ensures
        r.device_local == 1,
        r.host_visible == 2,
        r.host_coherent == 4,
{
    MemoryPropertyBits {
        device_local: vk::MemoryPropertyFlags::DEVICE_LOCAL.as_raw(),
        host_visible: vk::MemoryPropertyFlags::HOST_VISIBLE.as_raw(),
        host_coherent: vk::MemoryPropertyFlags::HOST_COHERENT.as_raw(),
    }
}

/// Raw bits of the buffer usages the library creates buffers with.
pub struct BufferUsageBits {
    pub transfer_src: u32,
    pub transfer_dst: u32,
    pub uniform_buffer: u32,
    pub storage_buffer: u32,
    pub index_buffer: u32,
    pub vertex_buffer: u32,
}

/// Calls `as_raw` on ash's `vk::BufferUsageFlags::{TRANSFER_SRC, TRANSFER_DST,
/// UNIFORM_BUFFER, STORAGE_BUFFER, INDEX_BUFFER, VERTEX_BUFFER}`; ash defines
/// them as the bits 0x1, 0x2, 0x10, 0x20, 0x40 and 0x80.
#[verifier::external_body]
pub(crate) fn buffer_usage_bits() -> (r: BufferUsageBits)
    ensures
        r.transfer_src == 0x1,
        r.transfer_dst == 0x2,
        r.uniform_buffer == 0x10,
        r.storage_buffer == 0x20,
        r.index_buffer == 0x40,
        r.vertex_buffer == 0x80,
{
    BufferUsageBits {
        transfer_src: vk::BufferUsageFlags::TRANSFER_SRC.as_raw(),
        transfer_dst: vk::BufferUsageFlags::TRANSFER_DST.as_raw(),
        uniform_buffer: vk::BufferUsageFlags::UNIFORM_BUFFER.as_raw(),
        storage_buffer: vk::BufferUsageFlags::STORAGE_BUFFER.as_raw(),
        index_buffer: vk::BufferUsageFlags::INDEX_BUFFER.as_raw(),
        vertex_buffer: vk::BufferUsageFlags::VERTEX_BUFFER.as_raw(),
    }
}

/// Raw bits of the format features the library checks.
pub struct FormatFeatureBits {
    pub depth_stencil_attachment: u32,
    pub sampled_image_filter_linear: u32,
}

/// Calls `as_raw` on ash's `vk::FormatFeatureFlags::{DEPTH_STENCIL_ATTACHMENT,
/// SAMPLED_IMAGE_FILTER_LINEAR}`; ash defines them as the bits 0x200 and 0x1000.
#[verifier::external_body]
pub(crate) fn format_feature_bits() -> (r: FormatFeatureBits)
    ensures
        r.depth_stencil_attachment == 0x200,
        r.sampled_image_filter_linear == 0x1000,
{
    FormatFeatureBits {
        depth_stencil_attachment: vk::FormatFeatureFlags::DEPTH_STENCIL_ATTACHMENT.as_raw(),
        sampled_image_filter_linear: vk::FormatFeatureFlags::SAMPLED_IMAGE_FILTER_LINEAR.as_raw(),
    }
}

/// Raw bits of the multisample counts.
pub struct SampleCountBits {
    pub type_1: u32,
    pub type_2: u32,
    pub type_4: u32,
    pub type_8: u32,
    pub type_16: u32,
    pub type_32: u32,
    pub type_64: u32,
}

/// Calls `as_raw` on ash's `vk::SampleCountFlags::{TYPE_1, .., TYPE_64}`; ash
/// defines `TYPE_n` as the bit of value n.
#[verifier::external_body]
pub(crate) fn sample_count_bits() -> (r: SampleCountBits)
    ensures
        r.type_1 == 1,
        r.type_2 == 2,
        r.type_4 == 4,
        r.type_8 == 8,
        r.type_16 == 16,
        r.type_32 == 32,
        r.type_64 == 64,
{
    SampleCountBits {
        type_1: vk::SampleCountFlags::TYPE_1.as_raw(),
        type_2: vk::SampleCountFlags::TYPE_2.as_raw(),
        type_4: vk::SampleCountFlags::TYPE_4.as_raw(),
        type_8: vk::SampleCountFlags::TYPE_8.as_raw(),
        type_16: vk::SampleCountFlags::TYPE_16.as_raw(),
        type_32: vk::SampleCountFlags::TYPE_32.as_raw(),
        type_64: vk::SampleCountFlags::TYPE_64.as_raw(),
    }
}

/// Raw values of the physical device types the library prefers.
pub struct DeviceTypeValues {
    pub integrated_gpu: i32,
    pub discrete_gpu: i32,
}

/// Calls `as_raw` on ash's `vk::PhysicalDeviceType::{INTEGRATED_GPU,
/// DISCRETE_GPU}`; ash defines them as 1 and 2.
#[verifier::external_body]
pub(crate) fn device_type_values() -> (r: DeviceTypeValues)
    ensures
        r.integrated_gpu == 1,
        r.discrete_gpu == 2,
{
    DeviceTypeValues {
        integrated_gpu: vk::PhysicalDeviceType::INTEGRATED_GPU.as_raw(),
        discrete_gpu: vk::PhysicalDeviceType::DISCRETE_GPU.as_raw(),
    }
}

/// Raw values of the image formats the library uses.
pub struct FormatValues {
    pub r8g8b8a8_srgb: i32,
    pub b8g8r8a8_unorm: i32,
    pub d24_unorm_s8_uint: i32,
    pub d32_sfloat_s8_uint: i32,
}

/// Calls `as_raw` on ash's `vk::Format::{R8G8B8A8_SRGB, B8G8R8A8_UNORM,
/// D24_UNORM_S8_UINT, D32_SFLOAT_S8_UINT}`; ash defines them as 43, 44, 129 and 130.
#[verifier::external_body]
pub(crate) fn format_values() -> (r: FormatValues)
    ensures
        r.r8g8b8a8_srgb == 43,
        r.b8g8r8a8_unorm == 44,
        r.d24_unorm_s8_uint == 129,
        r.d32_sfloat_s8_uint == 130,
{
    FormatValues {
        r8g8b8a8_srgb: vk::Format::R8G8B8A8_SRGB.as_raw(),
        b8g8r8a8_unorm: vk::Format::B8G8R8A8_UNORM.as_raw(),
        d24_unorm_s8_uint: vk::Format::D24_UNORM_S8_UINT.as_raw(),
        d32_sfloat_s8_uint: vk::Format::D32_SFLOAT_S8_UINT.as_raw(),
    }
}

/// Raw values of the presentation settings the library picks from.
pub struct PresentValues {
    pub color_space_srgb_nonlinear: i32,
    pub mode_immediate: i32,
    pub mode_mailbox: i32,
}

/// Calls `as_raw` on ash's `vk::ColorSpaceKHR::SRGB_NONLINEAR` and
/// `vk::PresentModeKHR::{IMMEDIATE, MAILBOX}`; ash defines them as 0, 0 and 1.
#[verifier::external_body]
pub(crate) fn present_values() -> (r: PresentValues)
    ensures
        r.color_space_srgb_nonlinear == 0,
        r.mode_immediate == 0,
        r.mode_mailbox == 1,
{
    PresentValues {
        color_space_srgb_nonlinear: vk::ColorSpaceKHR::SRGB_NONLINEAR.as_raw(),
        mode_immediate: vk::PresentModeKHR::IMMEDIATE.as_raw(),
        mode_mailbox: vk::PresentModeKHR::MAILBOX.as_raw(),
    }
}

/// Raw values of the swapchain results the library reacts to.
pub struct ResultValues {
    pub suboptimal: i32,
    pub out_of_date: i32,
}

/// Calls `as_raw` on ash's `vk::Result::{SUBOPTIMAL_KHR, ERROR_OUT_OF_DATE_KHR}`;
/// ash defines them as 1000001003 and -1000001004.
#[verifier::external_body]
pub(crate) fn result_values() -> (r: ResultValues)
    ensures
        r.suboptimal == 1000001003,
        r.out_of_date == -1000001004,
{
    ResultValues {
        suboptimal: vk::Result::SUBOPTIMAL_KHR.as_raw(),
        out_of_date: vk::Result::ERROR_OUT_OF_DATE_KHR.as_raw(),
    }
}

/// Calls `as_raw` on ash's `vk::DebugUtilsMessageSeverityFlagsEXT::ERROR`;
/// ash defines it as the bit 0x1000.
#[verifier::external_body]
pub(crate) fn debug_error_severity_bit() -> (r: u32)
    ensures
        r == 0x1000,
{
    vk::DebugUtilsMessageSeverityFlagsEXT::ERROR.as_raw()
}

} // verus!
