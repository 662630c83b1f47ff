use std::sync::Arc;
use crystal_api::errors::GraphicsError;
use crystal_api::gpu_sampler_set::GpuSamplerSet;
use crystal_api::texture::Texture;
use crystal_api::mesh::{DrawParams, IndexKind};
use crystal_api::object::{MeshBufferRef, Object, PipelineRef};
use crystal_api::vulkan::layout::{LayoutState, SamplerRegistry};

fn set(view: u64) -> Arc<GpuSamplerSet> {
    GpuSamplerSet::from_textures(&[(0, Texture::new(view, 1))])
}

#[test]
fn binding_takes_least_free_slot() {
    let mut layout = LayoutState::new(vec![], vec![1], vec![5, 6, 7], false);
    let a = set(1);
    let b = set(2);
    let c = set(3);
    assert_eq!(layout.bind_sampler_set(usize::MAX, a.clone()), Ok(0));
    assert_eq!(layout.bind_sampler_set(usize::MAX, b.clone()), Ok(1));
    layout.release_slots(&vec![0]);
    assert!(layout.bound_set(0).is_none());
    assert_eq!(layout.bind_sampler_set(usize::MAX, c.clone()), Ok(0));
    assert!(Arc::ptr_eq(&layout.bound_set(0).unwrap(), &c));
    assert!(Arc::ptr_eq(&layout.bound_set(1).unwrap(), &b));
}

#[test]
fn rebinding_moves_to_least_free_slot() {
    let mut layout = LayoutState::new(vec![], vec![1], vec![5, 6, 7], false);
    let a = set(1);
    let b = set(2);
    assert_eq!(layout.bind_sampler_set(usize::MAX, a.clone()), Ok(0));
    assert_eq!(layout.bind_sampler_set(usize::MAX, b.clone()), Ok(1));
    // a set re-registered releases its slot first, then takes the least free one
    assert_eq!(layout.bind_sampler_set(1, b.clone()), Ok(1));
    assert_eq!(layout.bind_sampler_set(0, a.clone()), Ok(0));
}

#[test]
fn binding_a_set_of_another_layout_is_refused() {
    let mut layout = LayoutState::new(vec![], vec![1], vec![5], false);
    let a = set(1);
    assert_eq!(layout.bind_sampler_set(3, a), Err(GraphicsError::TransferError));
    assert!(layout.bound_set(0).is_none());
}

#[test]
fn update_data_releases_sets_held_nowhere_else() {
    let mut layout = LayoutState::new(vec![1, 2], vec![3, 4], vec![5, 6], true);
    let kept = set(1);
    assert_eq!(layout.bind_sampler_set(usize::MAX, kept.clone()), Ok(0));
    assert_eq!(layout.bind_sampler_set(usize::MAX, set(2)), Ok(1));
    assert_eq!(layout.update_data(), 1);
    assert!(layout.bound_set(0).is_some());
    assert!(layout.bound_set(1).is_none());
    assert_eq!(layout.n_pass, 1);
}

#[test]
fn release_then_bind_restores() {
    let mut layout = LayoutState::new(vec![], vec![1], vec![5, 6], false);
    let a = set(1);
    let id = layout.bind_sampler_set(usize::MAX, a).unwrap();
    layout.release_slots(&vec![id]);
    assert!(layout.bound_set(id).is_none());
    assert_eq!(layout.bind_sampler_set(usize::MAX, set(4)), Ok(id));
}

#[test]
fn slots_counted_once_are_released() {
    let mut layout = LayoutState::new(vec![], vec![1], vec![5, 6, 7], false);
    let a = set(1);
    let b = set(2);
    let c = set(3);
    assert_eq!(layout.bind_sampler_set(usize::MAX, a), Ok(0));
    assert_eq!(layout.bind_sampler_set(usize::MAX, b.clone()), Ok(1));
    assert_eq!(layout.bind_sampler_set(usize::MAX, c), Ok(2));
    // slot 0 and slot 2 are held by the layout alone; slot 1 also elsewhere;
    // a count for a slot that is not bound changes nothing
    assert_eq!(layout.release_unreferenced(&vec![(0, 1), (1, 2), (2, 1), (9, 1)]), 2);
    assert!(layout.bound_set(0).is_none());
    assert!(Arc::ptr_eq(&layout.bound_set(1).unwrap(), &b));
    assert!(layout.bound_set(2).is_none());
    assert_eq!(layout.n_pass, 0);
}

#[test]
fn registry_records_and_forgets_registrations() {
    let mut registry = SamplerRegistry::new();
    // a fresh set is registered nowhere
    assert_eq!(registry.slot_of(100), usize::MAX);
    let mut first = LayoutState::new(vec![], vec![1], vec![5, 6], false);
    let mut second = LayoutState::new(vec![], vec![1], vec![7, 8], false);
    let a = set(1);
    let b = set(2);
    assert_eq!(first.register_sampler_set(&mut registry, 100, a.clone()), Ok(0));
    assert_eq!(first.register_sampler_set(&mut registry, 200, b.clone()), Ok(1));
    assert_eq!((registry.slot_of(100), registry.slot_of(200)), (0, 1));
    // re-registering moves the set to the least free slot
    assert_eq!(first.register_sampler_set(&mut registry, 200, b.clone()), Ok(1));
    // a set whose slot the other layout does not bind is refused there
    assert_eq!(second.register_sampler_set(&mut registry, 200, b.clone()), Err(GraphicsError::TransferError));
    assert_eq!(registry.slot_of(200), 1);
    // releasing slot 0 forgets the set that held it
    let before = vec![(0, 100), (1, 200)];
    first.release_slots(&vec![0]);
    registry.forget_released(&before, &first);
    assert_eq!((registry.slot_of(100), registry.slot_of(200)), (usize::MAX, 1));
}

fn object(sampler: Option<Arc<GpuSamplerSet>>, mesh: MeshBufferRef) -> Object {
    Object {
        pipeline: PipelineRef { handle: 42, layout: 7 },
        mesh_buffer: Some(mesh),
        sampler,
        groups: None,
        index: 3,
        array: 2,
    }
}

#[test]
fn object_draws() {
    let layout = LayoutState::new(vec![1], vec![2], vec![50, 60], false);
    let mesh = MeshBufferRef { vertices: 10, indices: 11, index_size: 2, index_bytes: 12 };
    let plain = layout.object_draw(&object(None, mesh), usize::MAX).unwrap();
    assert_eq!(plain.sampler_set, None);
    assert_eq!((plain.pipeline, plain.mesh, plain.index), (42, mesh, IndexKind::Uint16));
    assert_eq!(plain.params, DrawParams { index_count: 6, instance_count: 2, first_instance: 3 });
    let sampled = layout.object_draw(&object(Some(set(1)), mesh), 1).unwrap();
    assert_eq!(sampled.sampler_set, Some(60));
    assert_eq!(layout.object_draw(&object(Some(set(1)), mesh), usize::MAX), Err(GraphicsError::DataError));
    assert_eq!(layout.object_draw(&object(Some(set(1)), mesh), 2), Err(GraphicsError::DataError));
}
