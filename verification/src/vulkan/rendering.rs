//! Render targets: multisampling, render pass shape and framebuffers.
use vstd::prelude::*;
use crate::vulkan::images::ImageLayoutKind;
use crate::vulkan::vkbits::{contains, sample_count_bits};
use vstd::arithmetic::power2::{lemma2_to64, pow2};

verus! {

/// The raw sample count bit a requested multisampling level selects: the
/// level itself for 2, 4, 8, 16, 32 and 64, a single sample otherwise.
pub open spec fn spec_sample_count(msaa_samples: u8) -> u32 {
    if msaa_samples == 2 || msaa_samples == 4 || msaa_samples == 8 || msaa_samples == 16
        || msaa_samples == 32 || msaa_samples == 64 {
        msaa_samples as u32
    } else {
        1
    }
}

/// Whether a requested multisampling level is a power of two from 2 to 64.
pub open spec fn spec_is_msaa_level(msaa_samples: u8) -> bool {
    exists|k: nat| 1 <= k <= 6 && msaa_samples == #[trigger] pow2(k)
}

/// A requested multisampling level that is a power of two from 2 to 64 is
/// rendered with that many samples (the sample count bit of value `n` is `n`);
/// any other request is rendered with a single sample.
pub proof fn lemma_sample_count_is_level(msaa_samples: u8)
    ensures
        spec_is_msaa_level(msaa_samples) ==> spec_sample_count(msaa_samples) == msaa_samples as u32,
        !spec_is_msaa_level(msaa_samples) ==> spec_sample_count(msaa_samples) == 1,
{
    lemma2_to64();
    if spec_is_msaa_level(msaa_samples) {
        let k = choose|k: nat| 1 <= k <= 6 && msaa_samples == #[trigger] pow2(k);
        assert(k == 1 || k == 2 || k == 3 || k == 4 || k == 5 || k == 6);
    } else {
        assert(msaa_samples != pow2(1));
        assert(msaa_samples != pow2(2));
        assert(msaa_samples != pow2(3));
        assert(msaa_samples != pow2(4));
        assert(msaa_samples != pow2(5));
        assert(msaa_samples != pow2(6));
    }
}

/// Maps a requested multisampling level to its raw sample count bit.
pub fn sample_count(msaa_samples: u8) -> (r: u32)
    ensures
        r == spec_sample_count(msaa_samples),
        spec_is_msaa_level(msaa_samples) ==> r == msaa_samples as u32,
        !spec_is_msaa_level(msaa_samples) ==> r == 1,
{
    proof {
        lemma_sample_count_is_level(msaa_samples);
    }
    let bits = sample_count_bits();
    match msaa_samples {
        2 => bits.type_2,
        4 => bits.type_4,
        8 => bits.type_8,
        16 => bits.type_16,
        32 => bits.type_32,
        64 => bits.type_64,
        _ => bits.type_1,
    }
}

/// Whether the device can render with a sample count: both its color and its
/// depth framebuffers must support it.
pub fn sample_count_supported(color_counts: u32, depth_counts: u32, samples: u32) -> (r: bool)
    ensures
        r == contains(color_counts & depth_counts, samples),
{
    (color_counts & depth_counts) & samples == samples
}

/// The shape of a render pass.
#[derive(Clone, Copy, Debug, PartialEq, Eq, Structural)]
pub struct RenderPassPlan {
    /// Whether more than one sample is taken; a resolve attachment is added then.
    pub multisampled: bool,
    /// Layout the color attachment ends in.
    pub color_final: ImageLayoutKind,
    /// Layout the rendered image ends in (that of the resolve attachment when multisampled).
    pub target_final: ImageLayoutKind,
    /// Number of attachments: color, depth, and the resolve one when multisampled.
    pub attachment_count: usize,
}

/// Plans the render pass of a target rendering with the raw sample count
/// bit `samples`, into presentable images when `present` and into sampled
/// textures otherwise.
pub fn plan_render_pass(samples: u32, present: bool) -> (r: RenderPassPlan)
    ensures
        r.multisampled == (samples != 1),
        r.target_final == (if present { ImageLayoutKind::PresentSrc } else { ImageLayoutKind::ShaderReadOnlyOptimal }),
        r.color_final == (if samples != 1 { ImageLayoutKind::ColorAttachmentOptimal } else { r.target_final }),
        r.attachment_count == (if samples != 1 { 3usize } else { 2usize }),
{
    let bits = sample_count_bits();
    let multisampled = samples != bits.type_1;
    let target_final = if present { ImageLayoutKind::PresentSrc } else { ImageLayoutKind::ShaderReadOnlyOptimal };
    RenderPassPlan {
        multisampled,
        color_final: if multisampled { ImageLayoutKind::ColorAttachmentOptimal } else { target_final },
        target_final,
        attachment_count: if multisampled { 3 } else { 2 },
    }
}

/// The attachments of a framebuffer, in the order the render pass declares
/// them: when multisampled the color image, the depth image and the target
/// (as resolve attachment); otherwise the target and the depth image.
pub fn framebuffer_attachments(multisampled: bool, color_view: u64, depth_view: u64, target_view: u64) -> (r: Vec<u64>)
    ensures
        r@ == (if multisampled { seq![color_view, depth_view, target_view] } else { seq![target_view, depth_view] }),
{
    let mut r: Vec<u64> = Vec::new();
    if multisampled {
        r.push(color_view);
        r.push(depth_view);
        r.push(target_view);
    } else {
        r.push(target_view);
        r.push(depth_view);
    }
    r
}

/// The area rendered in a frame: the part of the render target that the
/// swapchain also covers.
pub fn render_area(target: (u32, u32), swapchain: (u32, u32)) -> (r: (u32, u32))
    ensures
        r.0 == (if target.0 < swapchain.0 { target.0 } else { swapchain.0 }),
        r.1 == (if target.1 < swapchain.1 { target.1 } else { swapchain.1 }),
{
    (
        if target.0 < swapchain.0 { target.0 } else { swapchain.0 },
        if target.1 < swapchain.1 { target.1 } else { swapchain.1 },
    )
}

} // verus!
