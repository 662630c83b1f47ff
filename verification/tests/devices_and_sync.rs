use crystal_api::errors::GraphicsError;
use crystal_api::vulkan::commands::{assign_queues, first_queue_with, flush_signal, frame_command_buffer, non_null_handles, CommandType, FlushSignal};
use crystal_api::vulkan::devices::{
    bytes_equal, has_name, pick_physical_device, queue_count_supported, queue_slots,
    require_queue_families, select_queue_families, supported_extensions, PhysicalDeviceExtensions, QueueFamilyInfo,
};
use crystal_api::vulkan::sync::FrameSync;
use ash::vk;

#[test]
fn device_preference() {
    let other = 0;
    let integrated = vk::PhysicalDeviceType::INTEGRATED_GPU.as_raw();
    let discrete = vk::PhysicalDeviceType::DISCRETE_GPU.as_raw();
    assert_eq!(pick_physical_device(&[], false), Err(GraphicsError::ConnotInitLibrary));
    assert_eq!(pick_physical_device(&[], true), Err(GraphicsError::ConnotInitLibrary));
    assert_eq!(pick_physical_device(&[other, discrete], true), Ok(0));
    assert_eq!(pick_physical_device(&[integrated, discrete, discrete], false), Ok(1));
    assert_eq!(pick_physical_device(&[integrated, other, integrated, other], false), Ok(2));
    assert_eq!(pick_physical_device(&[other, other], false), Ok(0));
    assert_eq!(pick_physical_device(&[other, integrated], false), Ok(1));
}

fn fam(flags: u32, family: u32, queue_count: u32, present_support: bool) -> QueueFamilyInfo {
    QueueFamilyInfo { flags, family, queue_count, present_support }
}

#[test]
fn queue_family_selection() {
    // graphics+compute+transfer, an empty family, transfer only, compute only
    let families = [(0b111, 4), (0b1000, 0), (0b100, 2), (0b010, 1)];
    let selected = select_queue_families(&families, &[true, false, false, false]);
    // a family is added only when some listed family shares no capability with it
    assert_eq!(selected[0], fam(0b111, 0, 4, true));
    assert_eq!(selected.len(), 1);
    let families = [(0b001, 1), (0b100, 2), (0b010, 1)];
    let selected = select_queue_families(&families, &[false, true, false]);
    assert_eq!(selected, vec![fam(0b001, 0, 1, false), fam(0b100, 1, 2, true), fam(0b010, 2, 1, false)]);
    assert!(require_queue_families(&selected).is_ok());
    assert_eq!(require_queue_families(&[]), Err(GraphicsError::NotSupportedDevice));
    assert!(select_queue_families(&[(0b111, 0)], &[false]).is_empty());
    // a family keeps its own index when a family before it has no queues
    let families = [(0b001, 1), (0b1000, 0), (0b100, 2)];
    let selected = select_queue_families(&families, &[false, false, true]);
    assert_eq!(selected, vec![fam(0b001, 0, 1, false), fam(0b100, 2, 2, true)]);
}

#[test]
fn queues_of_families() {
    let slots = queue_slots(&[fam(0b011, 0, 2, true), fam(0b100, 3, 1, false)]);
    assert_eq!(slots.len(), 3);
    assert_eq!((slots[0].family, slots[0].index, slots[0].flags), (0, 0, 0b011));
    assert_eq!((slots[1].family, slots[1].index, slots[1].present_support), (0, 1, true));
    assert_eq!((slots[2].family, slots[2].index, slots[2].present_support), (3, 0, false));
    assert!(queue_count_supported(256));
    assert!(!queue_count_supported(257));
}

#[test]
fn extension_names() {
    let wanted = vec![b"VK_EXT_a".to_vec(), b"VK_KHR_swapchain".to_vec(), b"VK_EXT_b".to_vec()];
    let available = vec![b"VK_KHR_swapchain".to_vec(), b"VK_EXT_b".to_vec(), b"VK_other".to_vec()];
    assert_eq!(supported_extensions(&wanted, &available), vec![1, 2]);
    assert!(has_name(&available, b"VK_EXT_b"));
    assert!(!has_name(&available, b"VK_EXT"));
    assert!(bytes_equal(b"abc", b"abc"));
    assert!(!bytes_equal(b"abc", b"abd"));
    assert!(!bytes_equal(b"abc", b"ab"));
    let ext = PhysicalDeviceExtensions::default();
    assert!(!ext.swapchain_compression && !ext.present_support);
}

#[test]
fn frame_ring() {
    let mut s = FrameSync::new(3);
    assert_eq!(s.current_barrier_index, 2);
    assert!(s.is_odd_frame);
    assert_eq!(s.fence_render_index(), 0);
    s.flip();
    assert_eq!(s.current_barrier_index, 0);
    assert!(!s.is_odd_frame);
    assert_eq!(s.fence_render_index(), 1);
    assert_eq!(s.semaphore_image_index(), 0);
    assert_eq!(s.semaphore_transfer_index(), 0);
    s.flip();
    s.flip();
    assert_eq!(s.current_barrier_index, 2);
    let before = s;
    s.flip();
    s.unflip();
    assert_eq!(s, before);
    s.unflip();
    s.flip();
    assert_eq!(s, before);
    s.set_image_index(1);
    assert_eq!(s.semaphore_render_index(), 1);
    assert!(s.is_sync());
    let n = FrameSync::no_sync();
    assert!(!n.is_sync());
    assert_eq!(n.fence_render_index(), 1);
}

#[test]
fn queues_for_work() {
    let flags = [0b100, 0b011, 0b010];
    let a = assign_queues(&flags);
    assert_eq!((a.graphics, a.transfer, a.compute), (Some(1), Some(0), Some(1)));
    assert_eq!(first_queue_with(&flags, 0b1000), None);
    assert!(CommandType::Graphics < CommandType::Transfer && CommandType::Transfer < CommandType::Compute);
}

#[test]
fn submissions() {
    let mut s = FrameSync::new(2);
    s.flip();
    assert_eq!(flush_signal(&s), FlushSignal::Semaphore(0));
    assert_eq!(flush_signal(&FrameSync::no_sync()), FlushSignal::Fence);
    assert_eq!(non_null_handles(&[0, 5, 0, 7]), vec![5, 7]);
    s.set_image_index(1);
    assert_eq!(frame_command_buffer(&s, 2), Some(1));
    assert_eq!(frame_command_buffer(&s, 1), None);
}
