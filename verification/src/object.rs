use std::sync::Arc;
use vstd::prelude::*;
use crate::gpu_sampler_set::GpuSamplerSet;

verus! {

/// A pipeline as objects refer to it: raw handles of the pipeline and of the
/// pipeline layout it was built on.
#[derive(Clone, Copy, Debug, PartialEq, Eq, Structural)]
pub struct PipelineRef {
    pub handle: u64,
    pub layout: u64,
}

/// GPU mesh data: raw handles of the vertex and index buffers, the size of
/// one index and the byte size of the index buffer.
#[derive(Clone, Copy, Debug, PartialEq, Eq, Structural)]
pub struct MeshBufferRef {
    pub vertices: u64,
    pub indices: u64,
    pub index_size: usize,
    pub index_bytes: u64,
}

/// Unified object used in GPU operations: a draw (with a mesh) or a compute
/// dispatch (with work groups).
pub struct Object {
    pub pipeline: PipelineRef,
    pub mesh_buffer: Option<MeshBufferRef>,
    pub sampler: Option<Arc<GpuSamplerSet>>,
    pub groups: Option<[u32; 3]>,
    pub index: u32,
    pub array: u32,
}

} // verus!
