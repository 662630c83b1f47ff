//! GPU memory: which memory type a resource is placed in, and what buffers
//! are created for a request.
use vstd::prelude::*;
use crate::errors::GraphicsError;
use crate::vulkan::vkbits::{buffer_usage_bits, memory_property_bits};

verus! {

/// Whether memory type `i` is allowed by `type_filter` and has every
/// property of `flags`.
pub open spec fn spec_memory_type_fits(property_flags: Seq<u32>, i: int, flags: u32, type_filter: u32) -> bool {
    &&& type_filter & (1u32 << (i as u32)) != 0
    &&& property_flags[i] & flags == flags
}

/// Picks the memory type for a resource: the first of the device's
/// `type_count` memory types that the resource's `type_filter` allows (bit
/// `i` set for type `i`) and that has every property of `flags`. Fails with
/// `MemoryError` when there is none.
pub fn find_memory_type_index(
    property_flags: &[u32],
    type_count: u32,
    flags: u32,
    type_filter: u32,
) -> (r: Result<u32, GraphicsError>)
    requires
        type_count <= 32,
        type_count <= property_flags@.len(),
    ensures
        r matches Ok(i) ==> {
            &&& i < type_count
            &&& spec_memory_type_fits(property_flags@, i as int, flags, type_filter)
            &&& forall|j: int| 0 <= j < i ==> !spec_memory_type_fits(property_flags@, j, flags, type_filter)
        },
        r matches Err(e) ==> {
            &&& e == GraphicsError::MemoryError
            &&& forall|j: int| 0 <= j < type_count ==> !spec_memory_type_fits(property_flags@, j, flags, type_filter)
        },
{
    let mut i: u32 = 0;
    while i < type_count
        invariant
            i <= type_count,
            type_count <= 32,
            type_count <= property_flags@.len(),
            forall|j: int| 0 <= j < i ==> !spec_memory_type_fits(property_flags@, j, flags, type_filter),
        decreases type_count - i,
    {
        if (type_filter & (1u32 << i)) != 0 && (property_flags[i as usize] & flags) == flags {
            return Ok(i);
        }
        i = i + 1;
    }
    Err(GraphicsError::MemoryError)
}

/// Description of a buffer to create: its size, raw usage and memory property
/// bits, and how many copies of it there are.
#[derive(Clone, Copy, Debug, PartialEq, Eq, Structural)]
pub struct BufferInfo {
    pub size: u64,
    pub usage: u32,
    pub properties: u32,
    pub count: usize,
}

/// Memory visible to and coherent with the host: where every buffer of the
/// library lives.
pub open spec fn spec_host_memory() -> u32 {
    2u32 | 4u32
}

/// Usage of a data buffer: a storage buffer, or a uniform buffer instead when
/// asked, with the transfer source and destination bits added when asked.
pub open spec fn spec_data_buffer_usage(uniform: bool, transfer: bool) -> u32 {
    let base: u32 = if uniform { 0x10 } else { 0x20 };
    if transfer { base | (0x2u32 | 0x1u32) } else { base }
}

/// Plans a data buffer of `size` bytes (one copy, host memory).
pub fn plan_data_buffer(size: u64, uniform: bool, transfer: bool) -> (r: BufferInfo)
    ensures
        r == (BufferInfo {
            size,
            usage: spec_data_buffer_usage(uniform, transfer),
            properties: spec_host_memory(),
            count: 1,
        }),
{
    let usage_bits = buffer_usage_bits();
    let memory_bits = memory_property_bits();
    let mut usage = usage_bits.storage_buffer;
    if uniform {
        usage = usage_bits.uniform_buffer;
    }
    if transfer {
        usage = usage | (usage_bits.transfer_dst | usage_bits.transfer_src);
    }
    BufferInfo { size, usage, properties: memory_bits.host_visible | memory_bits.host_coherent, count: 1 }
}

/// Plans the vertex and the index buffer of a mesh (one copy each, host memory).
pub fn plan_mesh_buffers(vertex_bytes: u64, index_bytes: u64) -> (r: (BufferInfo, BufferInfo))
    ensures
        r.0 == (BufferInfo { size: vertex_bytes, usage: 0x80, properties: spec_host_memory(), count: 1 }),
        r.1 == (BufferInfo { size: index_bytes, usage: 0x40, properties: spec_host_memory(), count: 1 }),
{
    let usage_bits = buffer_usage_bits();
    let memory_bits = memory_property_bits();
    let properties = memory_bits.host_visible | memory_bits.host_coherent;
    (
        BufferInfo { size: vertex_bytes, usage: usage_bits.vertex_buffer, properties, count: 1 },
        BufferInfo { size: index_bytes, usage: usage_bits.index_buffer, properties, count: 1 },
    )
}

/// Which copy of a buffer the host reads and writes: the copy of the frame's
/// parity when the buffer has several, otherwise the only one.
pub fn mapped_copy_index(count: usize, is_odd_frame: bool) -> (r: usize)
    ensures
        r == (if count > 1 && is_odd_frame { 1usize } else { 0usize }),
{
    if count > 1 {
        if is_odd_frame { 1 } else { 0 }
    } else {
        0
    }
}

/// The byte range `start..start + len` lies within a buffer of `size` bytes.
pub open spec fn spec_range_in_buffer(size: u64, start: u64, len: u64) -> bool {
    start + len <= size
}

/// Checks that a byte range lies within a buffer of `size` bytes.
pub fn range_in_buffer(size: u64, start: u64, len: u64) -> (r: bool)
    ensures
        r == spec_range_in_buffer(size, start, len),
{
    start <= size && len <= size - start
}

} // verus!
