use core::marker::PhantomData;
use std::sync::Arc;
use vstd::prelude::*;
use crate::gpu_sampler_set::GpuSamplerSet;
use crate::mesh::{Attribute, AttributeDescriptor, MeshBuffer};
use crate::object::{Object, PipelineRef};

verus! {

/// Empty struct used for compute pipeline as a template.
pub struct ComputeDescriptor {}

impl AttributeDescriptor for ComputeDescriptor {
    fn get_attributes() -> (r: Vec<Attribute>)
        ensures
            r@.len() == 0,
    {
        Vec::new()
    }
}

/// Used to setup render or compute pipeline; typed by the vertex type it draws.
///
/// Its view is the pipeline it refers to.
pub struct Pipeline<V: AttributeDescriptor> {
    inner: PipelineRef,
    _ty: PhantomData<V>,
}

impl<V: AttributeDescriptor> View for Pipeline<V> {
    type V = PipelineRef;

    closed spec fn view(&self) -> PipelineRef {
        self.inner
    }
}

impl<V: AttributeDescriptor> Pipeline<V> {
    /// Wraps a pipeline.
    pub fn new(proxy: PipelineRef) -> (r: Self)
        ensures
            r@ == proxy,
    {
        Pipeline { inner: proxy, _ty: PhantomData }
    }

    /// The pipeline referred to.
    pub fn inner(&self) -> (r: PipelineRef)
        ensures
            r == self@,
    {
        self.inner
    }

    /// Creates graphics object with mesh only.
    pub fn create_object_with_mesh<I>(&self, index: u32, mesh: &MeshBuffer<V, I>) -> (r: Object)
        ensures
            r.pipeline == self@,
            r.mesh_buffer == Some(mesh@),
            r.sampler is None,
            r.groups is None,
            r.index == index,
            r.array == 1,
    {
        Object { pipeline: self.inner, mesh_buffer: Some(mesh.inner()), sampler: None, groups: None, index, array: 1 }
    }

    /// Creates graphics object with mesh and textures.
    pub fn create_object_with_mesh_sampled<I>(
        &self,
        index: u32,
        mesh: &MeshBuffer<V, I>,
        sampler: Arc<GpuSamplerSet>,
    ) -> (r: Object)
        ensures
            r.pipeline == self@,
            r.mesh_buffer == Some(mesh@),
            r.sampler == Some(sampler),
            r.groups is None,
            r.index == index,
            r.array == 1,
    {
        Object {
            pipeline: self.inner,
            mesh_buffer: Some(mesh.inner()),
            sampler: Some(sampler),
            groups: None,
            index,
            array: 1,
        }
    }

    /// Creates array of graphics objects with mesh.
    pub fn create_object_with_mesh_array<I>(&self, index: u32, mesh: &MeshBuffer<V, I>, array: u32) -> (r: Object)
        ensures
            r.pipeline == self@,
            r.mesh_buffer == Some(mesh@),
            r.sampler is None,
            r.groups is None,
            r.index == index,
            r.array == array,
    {
        Object { pipeline: self.inner, mesh_buffer: Some(mesh.inner()), sampler: None, groups: None, index, array }
    }

    /// Creates array of graphics objects with mesh and textures.
    pub fn create_object_with_mesh_sampled_array<I>(
        &self,
        index: u32,
        mesh: &MeshBuffer<V, I>,
        sampler: Arc<GpuSamplerSet>,
        array: u32,
    ) -> (r: Object)
        ensures
            r.pipeline == self@,
            r.mesh_buffer == Some(mesh@),
            r.sampler == Some(sampler),
            r.groups is None,
            r.index == index,
            r.array == array,
    {
        Object {
            pipeline: self.inner,
            mesh_buffer: Some(mesh.inner()),
            sampler: Some(sampler),
            groups: None,
            index,
            array,
        }
    }
}

impl Pipeline<ComputeDescriptor> {
    /// Creates compute object. Need to specify compute groups.
    pub fn create_object_compute(&self, groups: [u32; 3]) -> (r: Object)
        ensures
            r.pipeline == self@,
            r.mesh_buffer is None,
            r.sampler is None,
            r.groups == Some(groups),
            r.index == 0,
            r.array == 0,
    {
        Object { pipeline: self.inner, mesh_buffer: None, sampler: None, groups: Some(groups), index: 0, array: 0 }
    }

    /// Creates compute object with samplers.
    pub fn create_object_compute_with_samplers(&self, groups: [u32; 3], sampler: Arc<GpuSamplerSet>) -> (r: Object)
        ensures
            r.pipeline == self@,
            r.mesh_buffer is None,
            r.sampler == Some(sampler),
            r.groups == Some(groups),
            r.index == 0,
            r.array == 0,
    {
        Object { pipeline: self.inner, mesh_buffer: None, sampler: Some(sampler), groups: Some(groups), index: 0, array: 0 }
    }
}

} // verus!
