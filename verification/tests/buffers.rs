use crystal_api::bitflags::BufferFlags;
use crystal_api::device::buffer_request;
use crystal_api::vulkan::memory::{
    find_memory_type_index, mapped_copy_index, plan_data_buffer, plan_mesh_buffers, range_in_buffer,
};
use crystal_api::errors::GraphicsError;
use ash::vk;

fn create(len: u64, uniform: bool, transfer: bool, sync: bool) -> (u64, u32, bool) {
    let mut flags = BufferFlags::empty();
    if uniform {
        flags = flags | BufferFlags::uniform();
    }
    if transfer {
        flags = flags | BufferFlags::transfer();
    }
    if sync {
        flags = flags | BufferFlags::synced();
    }
    let request = buffer_request::<u8>(len, flags);
    let info = plan_data_buffer(request.size, request.uniform, request.transfer);
    assert_eq!(request.enable_sync, sync);
    assert_eq!(info.count, 1);
    assert_eq!(info.properties, (vk::MemoryPropertyFlags::HOST_VISIBLE | vk::MemoryPropertyFlags::HOST_COHERENT).as_raw());
    (info.size, info.usage, request.enable_sync)
}

#[test]
fn buffer_uniform_creation() {
    let (size, usage, _) = create(1024 * 1024, true, false, false);
    assert_eq!(size, 1024 * 1024);
    assert_eq!(usage, vk::BufferUsageFlags::UNIFORM_BUFFER.as_raw());
}

#[test]
fn buffer_uniform_sync_creation() {
    let (size, usage, sync) = create(1024 * 1024, true, false, true);
    assert_eq!(size, 1024 * 1024);
    assert_eq!(usage, vk::BufferUsageFlags::UNIFORM_BUFFER.as_raw());
    assert!(sync);
}

#[test]
fn buffer_storage_creation() {
    let (_, usage, _) = create(1024 * 1024, false, false, false);
    assert_eq!(usage, vk::BufferUsageFlags::STORAGE_BUFFER.as_raw());
}

#[test]
fn buffer_storage_sync_creation() {
    let (_, usage, sync) = create(1024 * 1024, false, false, true);
    assert_eq!(usage, vk::BufferUsageFlags::STORAGE_BUFFER.as_raw());
    assert!(sync);
}

#[test]
fn buffer_transfer_creation() {
    let (_, usage, _) = create(1024 * 1024, false, true, false);
    let expected = vk::BufferUsageFlags::STORAGE_BUFFER | vk::BufferUsageFlags::TRANSFER_DST | vk::BufferUsageFlags::TRANSFER_SRC;
    assert_eq!(usage, expected.as_raw());
}

#[test]
fn buffer_transfer_sync_creation() {
    let (_, usage, sync) = create(1024 * 1024, false, true, true);
    let expected = vk::BufferUsageFlags::STORAGE_BUFFER | vk::BufferUsageFlags::TRANSFER_DST | vk::BufferUsageFlags::TRANSFER_SRC;
    assert_eq!(usage, expected.as_raw());
    assert!(sync);
}

#[test]
fn buffer_size_counts_elements() {
    let request = buffer_request::<[f32; 4]>(256, BufferFlags::uniform());
    assert_eq!(request.size, 256 * 16);
    assert!(request.uniform && !request.transfer && !request.enable_sync);
}

#[test]
fn uniform_transfer_buffer_usage() {
    let info = plan_data_buffer(64, true, true);
    assert_eq!(info.usage, 0x10 | 0x2 | 0x1);
    assert_eq!(info.size, 64);
}

#[test]
fn mesh_buffers() {
    let (v, i) = plan_mesh_buffers(96, 12);
    assert_eq!(v.size, 96);
    assert_eq!(v.usage, vk::BufferUsageFlags::VERTEX_BUFFER.as_raw());
    assert_eq!(i.size, 12);
    assert_eq!(i.usage, vk::BufferUsageFlags::INDEX_BUFFER.as_raw());
}

#[test]
fn memory_type_is_the_first_fitting() {
    let props = [0x1u32, 0x6, 0x7, 0x6];
    assert_eq!(find_memory_type_index(&props, 4, 0x6, 0b1111), Ok(1));
    assert_eq!(find_memory_type_index(&props, 4, 0x6, 0b1100), Ok(2));
    assert_eq!(find_memory_type_index(&props, 4, 0x1, 0b0110), Ok(2));
    assert_eq!(find_memory_type_index(&props, 2, 0x1, 0b0010), Err(GraphicsError::MemoryError));
    assert_eq!(find_memory_type_index(&props, 0, 0x0, 0b1111), Err(GraphicsError::MemoryError));
}

#[test]
fn mapped_copy() {
    assert_eq!(mapped_copy_index(1, true), 0);
    assert_eq!(mapped_copy_index(2, true), 1);
    assert_eq!(mapped_copy_index(2, false), 0);
}

#[test]
fn byte_ranges() {
    assert!(range_in_buffer(1024, 0, 1024));
    assert!(range_in_buffer(1024, 1000, 24));
    assert!(!range_in_buffer(1024, 1000, 25));
    assert!(!range_in_buffer(1024, 2000, 0));
}
