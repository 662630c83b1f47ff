use std::sync::Arc;
use crystal_api::errors::GraphicsError;
use crystal_api::images::Image2D;
use crystal_api::object::{MeshBufferRef, Object, PipelineRef};
use crystal_api::vulkan::devices::QueueSlot;
use crystal_api::vulkan::images::{
    depth_attachment_format, depth_format_candidates, mip_levels, plan_layout_transition, plan_mip_barriers, plan_mip_blits,
    supports_linear_filtering, AccessKind, ImageLayoutKind, StageKind,
};
use crystal_api::vulkan::library::{acquire_action, compute_objects, finish_acquire, group_by_layout, AcquireAction, PresentResult};
use crystal_api::vulkan::presentation::{
    check_swapchain_support, choose_extent, choose_image_count, choose_present_mode, choose_surface_format,
    concurrent_sharing, presentation_families,
};
use crystal_api::vulkan::rendering::{framebuffer_attachments, plan_render_pass, render_area, sample_count, sample_count_supported};
use crystal_api::vulkan::sync::FrameSync;
use crystal_api::vulkan::frame::{advance_frame, graphics_submission, start_frame, FrameStep};
use ash::vk;

#[test]
fn mip_counts() {
    assert_eq!(mip_levels(1024, 512, true), 10);
    assert_eq!(mip_levels(1000, 3, true), 9);
    assert_eq!(mip_levels(1, 1, true), 0);
    assert_eq!(mip_levels(0, 0, true), 0);
    assert_eq!(mip_levels(1024, 512, false), 1);
    assert_eq!(mip_levels(1 << 20, 7, true), 20);
    assert_eq!(mip_levels(3, (1 << 21) - 1, true), 20);
    assert_eq!(mip_levels(u32::MAX, 0, true), 31);
    for side in 0u32..0x1_0000 {
        assert_eq!(mip_levels(side, 1, true), (side as f32).log2().floor() as u32);
        assert_eq!(mip_levels(1, side, true), (side as f32).max(1.0).log2().floor() as u32);
    }
}

#[test]
fn mip_chain() {
    let blits = plan_mip_blits(8, 3, 4);
    assert_eq!(blits.len(), 3);
    assert_eq!((blits[0].level, blits[0].src_width, blits[0].src_height, blits[0].dst_width, blits[0].dst_height), (1, 8, 3, 4, 1));
    assert_eq!((blits[1].level, blits[1].src_width, blits[1].src_height, blits[1].dst_width, blits[1].dst_height), (2, 4, 1, 2, 1));
    assert_eq!((blits[2].level, blits[2].src_width, blits[2].src_height, blits[2].dst_width, blits[2].dst_height), (3, 2, 1, 1, 1));
    assert!(plan_mip_blits(8, 8, 1).is_empty());
    assert!(plan_mip_blits(8, 8, 0).is_empty());
}

#[test]
fn layout_transitions() {
    let t = plan_layout_transition(ImageLayoutKind::Undefined, ImageLayoutKind::TransferDstOptimal).unwrap();
    assert_eq!((t.src_access, t.dst_access, t.src_stage, t.dst_stage), (AccessKind::NoAccess, AccessKind::TransferWrite, StageKind::TopOfPipe, StageKind::Transfer));
    let t = plan_layout_transition(ImageLayoutKind::TransferDstOptimal, ImageLayoutKind::ShaderReadOnlyOptimal).unwrap();
    assert_eq!((t.src_access, t.dst_access, t.src_stage, t.dst_stage), (AccessKind::TransferWrite, AccessKind::ShaderRead, StageKind::Transfer, StageKind::FragmentShader));
    assert!(plan_layout_transition(ImageLayoutKind::Undefined, ImageLayoutKind::ShaderReadOnlyOptimal).is_none());
}

#[test]
fn formats() {
    let linear = vk::FormatFeatureFlags::SAMPLED_IMAGE_FILTER_LINEAR.as_raw();
    let depth = vk::FormatFeatureFlags::DEPTH_STENCIL_ATTACHMENT.as_raw();
    assert!(supports_linear_filtering(linear | 1));
    assert!(!supports_linear_filtering(depth));
    let c = depth_format_candidates();
    assert_eq!(c, vec![vk::Format::D32_SFLOAT_S8_UINT.as_raw(), vk::Format::D24_UNORM_S8_UINT.as_raw()]);
    assert_eq!(depth_attachment_format(&c, &[depth, depth]), Ok(c[0]));
    assert_eq!(depth_attachment_format(&c, &[linear, depth]), Ok(c[1]));
    assert_eq!(depth_attachment_format(&c, &[0, linear]), Err(GraphicsError::NotSupportedDevice));
}

#[test]
fn swapchain_choices() {
    assert_eq!(check_swapchain_support(0, 1), Err(GraphicsError::NotSupportedPresent));
    assert_eq!(check_swapchain_support(2, 1), Ok(()));
    let bgra = vk::Format::B8G8R8A8_UNORM.as_raw();
    let srgb = vk::ColorSpaceKHR::SRGB_NONLINEAR.as_raw();
    assert_eq!(choose_surface_format(&[(37, srgb), (bgra, 5), (bgra, srgb)]), Ok(2));
    assert_eq!(choose_surface_format(&[(37, srgb)]), Err(GraphicsError::NotSupportedPresent));
    assert_eq!(choose_extent((800, 600), None), (800, 600));
    assert_eq!(choose_extent((u32::MAX, u32::MAX), Some((640, 480))), (640, 480));
    assert_eq!(choose_image_count(2, 3), 3);
    assert_eq!(choose_image_count(2, 0), 2);
    let mailbox = vk::PresentModeKHR::MAILBOX.as_raw();
    let immediate = vk::PresentModeKHR::IMMEDIATE.as_raw();
    let fifo = vk::PresentModeKHR::FIFO.as_raw();
    assert_eq!(choose_present_mode(&[fifo, mailbox]), mailbox);
    assert_eq!(choose_present_mode(&[fifo]), immediate);
    let q = |family: u32, flags: u32, present: bool| QueueSlot { family, index: 0, flags, present_support: present };
    assert_eq!(presentation_families(&[q(2, 0b100, false), q(0, 0b001, false), q(1, 0b010, true)]), Some([0, 1]));
    assert_eq!(presentation_families(&[q(0, 0b001, false)]), None);
    assert!(concurrent_sharing([0, 1]));
    assert!(!concurrent_sharing([1, 1]));
}

#[test]
fn render_targets() {
    assert_eq!(sample_count(4), vk::SampleCountFlags::TYPE_4.as_raw());
    assert_eq!(sample_count(64), vk::SampleCountFlags::TYPE_64.as_raw());
    assert_eq!(sample_count(3), vk::SampleCountFlags::TYPE_1.as_raw());
    assert_eq!(sample_count(0), 1);
    assert!(sample_count_supported(0b1111, 0b0111, 4));
    assert!(!sample_count_supported(0b1111, 0b0011, 4));
    let p = plan_render_pass(4, true);
    assert!(p.multisampled);
    assert_eq!(p.attachment_count, 3);
    assert_eq!(p.color_final, ImageLayoutKind::ColorAttachmentOptimal);
    assert_eq!(p.target_final, ImageLayoutKind::PresentSrc);
    let p = plan_render_pass(1, false);
    assert_eq!(p.attachment_count, 2);
    assert_eq!(p.color_final, ImageLayoutKind::ShaderReadOnlyOptimal);
    assert_eq!(framebuffer_attachments(true, 1, 2, 3), vec![1, 2, 3]);
    assert_eq!(framebuffer_attachments(false, 1, 2, 3), vec![3, 2]);
    assert_eq!(render_area((800, 400), (640, 480)), (640, 400));
}

#[test]
fn frame_steering() {
    let ood = vk::Result::ERROR_OUT_OF_DATE_KHR.as_raw();
    let sub = vk::Result::SUBOPTIMAL_KHR.as_raw();
    let p = PresentResult::from_present(Some(ood));
    assert_eq!(p.frame_start_actions(), (true, false));
    assert_eq!(PresentResult::from_present(Some(sub)).frame_start_actions(), (false, true));
    assert_eq!(PresentResult::from_present(None), PresentResult::default());
    assert_eq!(acquire_action(None), AcquireAction::Proceed);
    assert_eq!(acquire_action(Some(ood)), AcquireAction::Recreate);
    assert_eq!(acquire_action(Some(sub)), AcquireAction::Fail(GraphicsError::RenderingError));
}

#[test]
fn suboptimal_acquire_steps_back() {
    let mut s = FrameSync::new(3);
    let start = s;
    s.flip();
    assert_eq!(finish_acquire(&mut s, 2, true), Some(vk::Result::SUBOPTIMAL_KHR.as_raw()));
    assert_eq!(s.current_barrier_index, start.current_barrier_index);
    assert_eq!(s.is_odd_frame, start.is_odd_frame);
    assert_eq!(s.image_index, 2);
    s.flip();
    assert_eq!(finish_acquire(&mut s, 1, false), None);
    assert_eq!(s.current_barrier_index, 0);
    assert_eq!(s.image_index, 1);
}

fn object(layout: u64, compute: bool) -> Arc<Object> {
    Arc::new(Object {
        pipeline: PipelineRef { handle: layout + 100, layout },
        mesh_buffer: if compute { None } else { Some(MeshBufferRef { vertices: 1, indices: 2, index_size: 4, index_bytes: 4 }) },
        sampler: None,
        groups: if compute { Some([1, 1, 1]) } else { None },
        index: 0,
        array: 1,
    })
}

#[test]
fn objects_split_between_passes() {
    let objects = vec![object(7, false), object(3, true), object(3, false), object(7, false), object(5, false), object(9, true)];
    assert_eq!(compute_objects(&objects), vec![1, 5]);
    let (layouts, members) = group_by_layout(&objects);
    assert_eq!(layouts, vec![3, 5, 7]);
    assert_eq!(members, vec![vec![2], vec![4], vec![0, 3]]);
    let (layouts, members) = group_by_layout(&[]);
    assert!(layouts.is_empty() && members.is_empty());
}

fn png_bytes(width: u32, height: u32, pixels: &[u8]) -> Vec<u8> {
    let mut out = Vec::new();
    {
        let mut encoder = png::Encoder::new(&mut out, width, height);
        encoder.set_color(png::ColorType::Rgba);
        encoder.set_depth(png::BitDepth::Eight);
        let mut writer = encoder.write_header().unwrap();
        writer.write_image_data(pixels).unwrap();
    }
    out
}

#[test]
fn png_images() {
    let pixels: Vec<u8> = (0..16).collect();
    let img = Image2D::from_png(&png_bytes(2, 2, &pixels)).unwrap();
    assert_eq!((img.width, img.height, img.channels), (2, 2, 8));
    assert_eq!(img.pixels, pixels);
    assert!(Image2D::from_png(b"not a png").is_none());
}

#[test]
fn frame_steps() {
    let out_of_date = vk::Result::ERROR_OUT_OF_DATE_KHR.as_raw();
    let suboptimal = vk::Result::SUBOPTIMAL_KHR.as_raw();

    // a plain frame
    let mut s = start_frame(&PresentResult::default());
    let mut steps = vec![s.step];
    while s.step != FrameStep::Done {
        s = advance_frame(s, None);
        steps.push(s.step);
    }
    assert_eq!(
        steps,
        vec![
            FrameStep::WaitRenderFence,
            FrameStep::AcquireImage,
            FrameStep::SubmitCompute,
            FrameStep::SubmitGraphicsAndPresent,
            FrameStep::Done
        ]
    );

    // after an out-of-date presentation the swapchain is recreated first
    let s = start_frame(&PresentResult::from_present(Some(out_of_date)));
    assert_eq!(s.step, FrameStep::RecreateSwapchain);
    assert_eq!(advance_frame(s, None).step, FrameStep::WaitRenderFence);

    // after a suboptimal presentation the target is refreshed first
    let s = start_frame(&PresentResult::from_present(Some(suboptimal)));
    assert_eq!(s.step, FrameStep::RefreshTarget);
    assert_eq!(advance_frame(s, None).step, FrameStep::WaitRenderFence);

    // an out-of-date acquisition recreates, refreshes, then goes on to submit
    let s = advance_frame(start_frame(&PresentResult::default()), None);
    let s = advance_frame(s, Some(out_of_date));
    assert_eq!((s.step, s.acquired), (FrameStep::RecreateSwapchain, true));
    let s = advance_frame(s, None);
    assert_eq!(s.step, FrameStep::RefreshTarget);
    assert_eq!(advance_frame(s, None).step, FrameStep::SubmitCompute);

    // any other acquisition failure gives the frame up
    let s = advance_frame(start_frame(&PresentResult::default()), None);
    let s = advance_frame(s, Some(suboptimal));
    assert_eq!(s.step, FrameStep::Fail(GraphicsError::RenderingError));
    assert_eq!(advance_frame(s, None), s);

    // the graphics submission's semaphores and fence
    let mut ring = FrameSync::new(3);
    ring.flip();
    ring.set_image_index(2);
    let g = graphics_submission(&ring);
    assert_eq!((g.wait_image, g.wait_transfer, g.signal_render, g.fence), (0, 0, 2, 1));
}

#[test]
fn mip_barriers() {
    let b = plan_mip_barriers(3);
    assert_eq!(b.len(), 5);
    let summary: Vec<(u32, ImageLayoutKind, ImageLayoutKind, AccessKind, AccessKind, StageKind)> =
        b.iter().map(|x| (x.level, x.old_layout, x.new_layout, x.src_access, x.dst_access, x.dst_stage)).collect();
    use_summary(&summary);
    let single = plan_mip_barriers(1);
    assert_eq!(single.len(), 1);
    assert_eq!(
        (single[0].level, single[0].old_layout, single[0].new_layout),
        (0, ImageLayoutKind::TransferDstOptimal, ImageLayoutKind::ShaderReadOnlyOptimal)
    );
}

fn use_summary(summary: &[(u32, ImageLayoutKind, ImageLayoutKind, AccessKind, AccessKind, StageKind)]) {
    let dst = ImageLayoutKind::TransferDstOptimal;
    let src = ImageLayoutKind::TransferSrcOptimal;
    let read = ImageLayoutKind::ShaderReadOnlyOptimal;
    assert_eq!(
        summary,
        &[
            (0, dst, src, AccessKind::TransferWrite, AccessKind::TransferRead, StageKind::Transfer),
            (0, src, read, AccessKind::TransferRead, AccessKind::ShaderRead, StageKind::FragmentShader),
            (1, dst, src, AccessKind::TransferWrite, AccessKind::TransferRead, StageKind::Transfer),
            (1, src, read, AccessKind::TransferRead, AccessKind::ShaderRead, StageKind::FragmentShader),
            (2, dst, read, AccessKind::TransferWrite, AccessKind::ShaderRead, StageKind::FragmentShader),
        ]
    );
}
