use crystal_api::vulkan::layout::{plan_layout, validate_layout_request, DescriptorKind, LayoutState};
use crystal_api::errors::GraphicsError;

#[test]
fn layout_non_empty_creation() {
    for (t, s, u, st) in [(0, 0, 0, 1), (0, 0, 1, 0), (0, 0, 1, 1), (1, 1, 1, 1), (2, 2, 2, 2)] {
        assert!(validate_layout_request(t, s, u, st).is_ok());
        let plan = plan_layout(false, t, s, u, st);
        assert_eq!(plan.buffer_count, 1);
    }
}

#[test]
fn layout_double_buffered_creation() {
    for (t, s, u, st) in [(0, 0, 0, 1), (0, 0, 1, 0), (0, 0, 1, 1), (1, 1, 1, 1), (2, 2, 2, 2)] {
        assert!(validate_layout_request(t, s, u, st).is_ok());
        let plan = plan_layout(true, t, s, u, st);
        assert_eq!(plan.buffer_count, 2);
    }
}

#[test]
#[should_panic(expected = "layout")]
fn layout_empty_buffers_creation() {
    validate_layout_request(0, 0, 0, 0).expect("layout");
}

#[test]
fn layout_texture_no_samplers_creation() {
    if validate_layout_request(1, 0, 1, 1).is_ok() {
        panic!("invalid")
    }
}

#[test]
fn layout_sampler_no_textures_creation() {
    if validate_layout_request(0, 1, 1, 1).is_ok() {
        panic!("invalid")
    }
}

#[test]
fn layout_refusal_is_data_error() {
    assert_eq!(validate_layout_request(1, 0, 1, 1), Err(GraphicsError::DataError));
    assert_eq!(validate_layout_request(0, 0, 0, 0), Err(GraphicsError::DataError));
    assert_eq!(validate_layout_request(3, 1, 0, 2), Ok(()));
}

#[test]
fn layout_plan_counts() {
    let plan = plan_layout(true, 2, 3, 4, 5);
    assert_eq!(plan.pool_sizes.len(), 3);
    assert_eq!(plan.pool_sizes[0].kind, DescriptorKind::UniformBuffer);
    assert_eq!(plan.pool_sizes[0].count, 8);
    assert_eq!(plan.pool_sizes[1].kind, DescriptorKind::StorageBuffer);
    assert_eq!(plan.pool_sizes[1].count, 10);
    assert_eq!(plan.pool_sizes[2].kind, DescriptorKind::CombinedImageSampler);
    assert_eq!(plan.pool_sizes[2].count, 6);
    assert_eq!(plan.max_sets, 2 * (4 + 5 + 3));
    assert_eq!(plan.uniform_sets, 2);
    assert_eq!(plan.storage_sets, 2);
    assert_eq!(plan.sampler_sets, 3);
    assert_eq!(plan.sampler_bindings, 2);

    let plan = plan_layout(false, 0, 0, 0, 1);
    assert_eq!(plan.pool_sizes.len(), 1);
    assert_eq!(plan.pool_sizes[0].kind, DescriptorKind::StorageBuffer);
    assert_eq!(plan.uniform_sets, 0);
    assert_eq!(plan.storage_sets, 1);
    assert_eq!(plan.max_sets, 1);
}

fn state(double: bool) -> LayoutState {
    LayoutState::new(vec![10, 11], vec![20, 21], vec![30, 31, 32], double)
}

#[test]
fn buffer_binding() {
    let plan = plan_layout(false, 0, 0, 1, 2);
    assert_eq!(plan.uniform_sets, 1);
    assert_eq!(plan.storage_sets, 1);
    let layout = LayoutState::new(vec![100], vec![200], vec![], false);
    let storage = layout.buffer_writes(0x20, 1, 1);
    assert_eq!(storage.len(), 1);
    assert_eq!(storage[0].set, 200);
    assert_eq!(storage[0].copy, 0);
    let storage_again = layout.buffer_writes(0x20, 1, 1);
    assert_eq!(storage_again[0].set, 200);
    let uniform = layout.buffer_writes(0x10, 1, 1);
    assert_eq!(uniform.len(), 1);
    assert_eq!(uniform[0].set, 100);
}

#[test]
fn buffer_rebinding() {
    let plan = plan_layout(false, 0, 0, 0, 1);
    assert_eq!(plan.storage_sets, 1);
    let layout = LayoutState::new(vec![], vec![200], vec![], false);
    let first = layout.buffer_writes(0x20, 1, 1);
    let second = layout.buffer_writes(0x20, 1, 1);
    assert_eq!(first, second);
    assert_eq!(first[0].set, 200);
}

#[test]
fn buffer_writes_double_buffered_single_copy() {
    let layout = state(true);
    let w = layout.buffer_writes(0x10 | 0x2, 1, 1);
    assert_eq!(w.len(), 2);
    assert_eq!((w[0].set, w[0].copy), (10, 0));
    assert_eq!((w[1].set, w[1].copy), (11, 0));
    let w = layout.buffer_writes(0x20, 2, 2);
    assert_eq!(w.len(), 2);
    assert_eq!((w[1].set, w[1].copy), (21, 1));
}

#[test]
fn descriptor_sets_follow_pass() {
    let mut layout = state(true);
    assert_eq!(layout.descriptor_sets(), vec![10, 20]);
    layout.advance_pass();
    assert_eq!(layout.n_pass, 1);
    assert_eq!(layout.descriptor_sets(), vec![11, 21]);
    layout.advance_pass();
    assert_eq!(layout.n_pass, 0);
    let mut single = state(false);
    single.advance_pass();
    assert_eq!(single.n_pass, 0);
    assert_eq!(single.sampler_set(2), 32);
}

#[test]
fn sampler_cache() {
    let mut layout = state(false);
    assert_eq!(layout.cached_sampler(4), None);
    layout.remember_sampler(4, 77);
    assert_eq!(layout.cached_sampler(4), Some(77));
    assert_eq!(layout.cached_sampler(5), None);
}
