use std::sync::Arc;
use crystal_api::errors::GraphicsError;
use crystal_api::gpu_sampler_set::GpuSamplerSet;
use crystal_api::mesh::{draw_params, index_kind, plan_vertex_input, Attribute, AttributeDescriptor, IndexKind, Mesh, MeshBuffer, VertexFormat};
use crystal_api::object::{MeshBufferRef, PipelineRef};
use crystal_api::pipeline::{ComputeDescriptor, Pipeline};
use crystal_api::shader::{check_graphics_shaders, graphics_stage_supported, Shader, ShaderStage};
use crystal_api::texture::Texture;

#[test]
fn shader_from_words() {
    let s = Shader::from_words(&[0x0723_0203, 7, 9], ShaderStage::Vertex).unwrap();
    assert_eq!(s.code(), &vec![0x0723_0203, 7, 9]);
    assert_eq!(s.stage(), ShaderStage::Vertex);
}

#[test]
fn shader_from_bytes_is_little_endian() {
    let s = Shader::from_bytes(&[0x03, 0x02, 0x23, 0x07, 1, 0, 0, 0, 0xff], ShaderStage::Compute).unwrap();
    assert_eq!(s.code(), &vec![0x0723_0203, 1]);
    let words = [0xdead_beefu32, 0x0102_0304];
    let bytes: Vec<u8> = words.iter().flat_map(|w| w.to_le_bytes()).collect();
    let back = Shader::from_bytes(&bytes, ShaderStage::Fragment).unwrap();
    assert_eq!(back.code(), Shader::from_words(&words, ShaderStage::Fragment).unwrap().code());
}

#[test]
fn shader_stages() {
    let c = Shader::from_words(&[1], ShaderStage::Compute).unwrap();
    assert_eq!(c.check_compute(), Ok(()));
    let v = Shader::from_words(&[1], ShaderStage::Vertex).unwrap();
    assert_eq!(v.check_compute(), Err(GraphicsError::ShaderError));
    assert!(graphics_stage_supported(ShaderStage::Vertex));
    assert!(graphics_stage_supported(ShaderStage::Fragment));
    assert!(graphics_stage_supported(ShaderStage::Geometry));
    assert!(!graphics_stage_supported(ShaderStage::Compute));
    assert!(!graphics_stage_supported(ShaderStage::Tesselate));
    assert_eq!(check_graphics_shaders(&[]), Err(GraphicsError::ShaderError));
    assert_eq!(check_graphics_shaders(&[v]), Ok(()));
}

struct Vertex;

impl AttributeDescriptor for Vertex {
    fn get_attributes() -> Vec<Attribute> {
        vec![Attribute { size: 12, offset: 0 }, Attribute { size: 8, offset: 12 }]
    }
}

fn mesh_ref() -> MeshBufferRef {
    MeshBufferRef { vertices: 1, indices: 2, index_size: 4, index_bytes: 48 }
}

#[test]
fn graphics_objects() {
    let pipeline: Pipeline<Vertex> = Pipeline::new(PipelineRef { handle: 5, layout: 6 });
    let mesh: MeshBuffer<Vertex, u32> = MeshBuffer::new(mesh_ref());
    let o = pipeline.create_object_with_mesh(3, &mesh);
    assert_eq!(o.pipeline, PipelineRef { handle: 5, layout: 6 });
    assert_eq!(o.mesh_buffer, Some(mesh_ref()));
    assert!(o.sampler.is_none() && o.groups.is_none());
    assert_eq!((o.index, o.array), (3, 1));
    let o = pipeline.create_object_with_mesh_array(2, &mesh, 10);
    assert_eq!((o.index, o.array), (2, 10));
    let set = GpuSamplerSet::from_textures(&[(1, Texture::new(9, 3))]);
    let o = pipeline.create_object_with_mesh_sampled(4, &mesh, set.clone());
    assert!(Arc::ptr_eq(o.sampler.as_ref().unwrap(), &set));
    assert_eq!((o.index, o.array), (4, 1));
    let o = pipeline.create_object_with_mesh_sampled_array(4, &mesh, set.clone(), 7);
    assert_eq!(o.array, 7);
    assert!(o.sampler.is_some());
}

#[test]
fn compute_objects() {
    let pipeline: Pipeline<ComputeDescriptor> = Pipeline::new(PipelineRef { handle: 1, layout: 2 });
    let o = pipeline.create_object_compute([4, 1, 1]);
    assert_eq!(o.groups, Some([4, 1, 1]));
    assert!(o.mesh_buffer.is_none() && o.sampler.is_none());
    assert_eq!((o.index, o.array), (0, 0));
    let set = GpuSamplerSet::from_textures(&[]);
    let o = pipeline.create_object_compute_with_samplers([8, 8, 1], set);
    assert_eq!(o.groups, Some([8, 8, 1]));
    assert!(o.sampler.is_some());
    assert!(ComputeDescriptor::get_attributes().is_empty());
}

#[test]
fn sampler_set_textures() {
    let set = GpuSamplerSet::from_textures(&[(0, Texture::new(11, 1)), (2, Texture::new(12, 5))]);
    assert_eq!(set.textures(), &vec![(0, Texture { image_view: 11, mip_levels: 1 }), (2, Texture { image_view: 12, mip_levels: 5 })]);
}

#[test]
fn vertex_input() {
    let plan = plan_vertex_input(&Vertex::get_attributes());
    assert_eq!(plan.stride, 20);
    assert_eq!(plan.attributes.len(), 2);
    assert_eq!(plan.attributes[0].format, VertexFormat::R32G32B32Float);
    assert_eq!(plan.attributes[1].format, VertexFormat::R32G32Float);
    assert_eq!(plan.attributes[1].location, 1);
    assert_eq!(plan.attributes[1].offset, 12);
    let odd = plan_vertex_input(&[Attribute { size: 4, offset: 0 }, Attribute { size: 16, offset: 4 }, Attribute { size: 6, offset: 20 }]);
    assert_eq!(odd.stride, 26);
    assert_eq!(odd.attributes[0].format, VertexFormat::R32Float);
    assert_eq!(odd.attributes[1].format, VertexFormat::R32G32B32A32Float);
    assert_eq!(odd.attributes[2].format, VertexFormat::R32G32B32Float);
}

#[test]
fn indices_and_draws() {
    assert_eq!(index_kind(1), IndexKind::Uint8);
    assert_eq!(index_kind(2), IndexKind::Uint16);
    assert_eq!(index_kind(4), IndexKind::Uint32);
    assert_eq!(index_kind(8), IndexKind::Unknown);
    let d = draw_params(&mesh_ref(), 2, 5);
    assert_eq!((d.index_count, d.instance_count, d.first_instance), (12, 5, 2));
}

#[test]
fn mesh_sizes() {
    let mesh: Mesh<Vertex, u16> = Mesh { vertices: vec![Vertex, Vertex], indices: vec![0, 1, 2] };
    assert_eq!(mesh.byte_sizes(), (0, 6));
    assert_eq!(mesh.size(), 6);
    let big: Mesh<Vertex, u32> = Mesh { vertices: vec![], indices: vec![1; 10] };
    assert_eq!(big.size(), 40);
}
