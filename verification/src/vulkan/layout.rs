//! Shader layouts: request validation, the descriptor plan of a new layout,
//! and the per-layout state that binds sampler sets and buffers.
use std::collections::BTreeMap;
use std::sync::Arc;
use vstd::prelude::*;
use crate::errors::GraphicsError;
use crate::gpu_sampler_set::GpuSamplerSet;
use crate::mesh::{draw_params, index_kind, DrawParams, IndexKind};
use crate::object::{MeshBufferRef, Object};
use crate::vulkan::vkbits::{buffer_usage_bits, contains};
use vstd::std_specs::iter::IteratorSpec;

verus! {

/// Whether a layout request is refused: textures and samplers must come
/// together (both present or both absent), and at least one buffer must be bound.
pub open spec fn spec_layout_request_refused(
    texture_num: usize,
    sampler_num: usize,
    uniform_num: usize,
    storage_num: usize,
) -> bool {
    ||| (texture_num == 0) != (sampler_num == 0)
    ||| (uniform_num == 0 && storage_num == 0)
}

/// Validates the descriptor counts of a layout request.
pub fn validate_layout_request(
    texture_num: usize,
    sampler_num: usize,
    uniform_num: usize,
    storage_num: usize,
) -> (r: Result<(), GraphicsError>)
    ensures
        r is Err <==> spec_layout_request_refused(texture_num, sampler_num, uniform_num, storage_num),
        r matches Err(e) ==> e == GraphicsError::DataError,
{
    if (sampler_num == 0 && texture_num == 0) == (sampler_num > 0 && texture_num > 0) {
        return Err(GraphicsError::DataError);
    }
    if !(uniform_num > 0 || storage_num > 0) {
        return Err(GraphicsError::DataError);
    }
    Ok(())
}

/// Kind of a descriptor.
#[derive(Clone, Copy, Debug, PartialEq, Eq, Structural)]
pub enum DescriptorKind {
    UniformBuffer,
    StorageBuffer,
    CombinedImageSampler,
}

/// One entry of a descriptor pool: how many descriptors of a kind it holds.
#[derive(Clone, Copy, Debug, PartialEq, Eq, Structural)]
pub struct PoolSize {
    pub kind: DescriptorKind,
    pub count: u32,
}

/// What a new layout allocates.
#[derive(Debug)]
pub struct LayoutPlan {
    /// Copies of each buffer descriptor set (2 when double buffered).
    pub buffer_count: u32,
    /// Entries of the descriptor pool.
    pub pool_sizes: Vec<PoolSize>,
    /// Maximum number of sets the pool hands out.
    pub max_sets: u32,
    /// Bindings 0.. of the uniform set layout.
    pub uniform_bindings: usize,
    /// Bindings 0.. of the storage set layout.
    pub storage_bindings: usize,
    /// Bindings 0.. of the sampler set layout (one per texture).
    pub sampler_bindings: usize,
    /// Uniform descriptor sets to allocate.
    pub uniform_sets: usize,
    /// Storage descriptor sets to allocate.
    pub storage_sets: usize,
    /// Sampler descriptor sets to allocate.
    pub sampler_sets: usize,
}

/// The copies of each buffer set of a layout.
pub open spec fn spec_buffer_count(double_buffering: bool) -> u32 {
    if double_buffering { 2 } else { 1 }
}

/// The pool entries of a layout: uniform and storage buffers per copy, and the
/// product of sampler and texture counts for combined image samplers, each
/// present only when its count is non-zero.
pub open spec fn spec_pool_sizes(
    double_buffering: bool,
    texture_num: usize,
    sampler_num: usize,
    uniform_num: usize,
    storage_num: usize,
) -> Seq<PoolSize> {
    let b = spec_buffer_count(double_buffering);
    let u = if uniform_num > 0 {
        seq![PoolSize { kind: DescriptorKind::UniformBuffer, count: (b * (uniform_num as u32)) as u32 }]
    } else {
        Seq::empty()
    };
    let s = if storage_num > 0 {
        seq![PoolSize { kind: DescriptorKind::StorageBuffer, count: (b * (storage_num as u32)) as u32 }]
    } else {
        Seq::empty()
    };
    let c = if sampler_num + texture_num > 0 {
        seq![PoolSize { kind: DescriptorKind::CombinedImageSampler, count: (sampler_num * texture_num) as u32 }]
    } else {
        Seq::empty()
    };
    u + s + c
}

/// The counts of a layout request stay within the machine integers that
/// the plan computes with.
pub open spec fn spec_layout_plan_fits(
    double_buffering: bool,
    texture_num: usize,
    sampler_num: usize,
    uniform_num: usize,
    storage_num: usize,
) -> bool {
    let b = spec_buffer_count(double_buffering);
    &&& b * (uniform_num as u32) <= u32::MAX
    &&& b * (storage_num as u32) <= u32::MAX
    &&& sampler_num + texture_num <= usize::MAX
    &&& sampler_num * texture_num <= usize::MAX
    &&& uniform_num + storage_num + sampler_num <= usize::MAX
    &&& b * ((uniform_num + storage_num + sampler_num) as u32) <= u32::MAX
}


/// The descriptor pool of a layout holds one entry per kind of descriptor it
/// uses: a combined image sampler entry exactly when the layout has textures
/// or samplers, sized `sampler_num * texture_num`; a uniform buffer entry
/// exactly when it has uniform buffers and a storage buffer entry exactly
/// when it has storage buffers, each sized by the buffer count (2 when double
/// buffered) times the number of buffers.
pub proof fn lemma_pool_sizes_by_kind(
    double_buffering: bool,
    texture_num: usize,
    sampler_num: usize,
    uniform_num: usize,
    storage_num: usize,
)
    ensures
        ({
            let pool = spec_pool_sizes(double_buffering, texture_num, sampler_num, uniform_num, storage_num);
            let copies: u32 = if double_buffering { 2 } else { 1 };
            &&& (exists|i: int| 0 <= i < pool.len() && #[trigger] pool[i].kind == DescriptorKind::CombinedImageSampler)
                <==> texture_num + sampler_num > 0
            &&& forall|i: int| 0 <= i < pool.len() && #[trigger] pool[i].kind == DescriptorKind::CombinedImageSampler
                ==> pool[i].count == (sampler_num * texture_num) as u32
            &&& (exists|i: int| 0 <= i < pool.len() && #[trigger] pool[i].kind == DescriptorKind::UniformBuffer)
                <==> uniform_num > 0
            &&& forall|i: int| 0 <= i < pool.len() && #[trigger] pool[i].kind == DescriptorKind::UniformBuffer
                ==> pool[i].count == (copies * (uniform_num as u32)) as u32
            &&& (exists|i: int| 0 <= i < pool.len() && #[trigger] pool[i].kind == DescriptorKind::StorageBuffer)
                <==> storage_num > 0
            &&& forall|i: int| 0 <= i < pool.len() && #[trigger] pool[i].kind == DescriptorKind::StorageBuffer
                ==> pool[i].count == (copies * (storage_num as u32)) as u32
        }),
{
    let pool = spec_pool_sizes(double_buffering, texture_num, sampler_num, uniform_num, storage_num);
    let copies: u32 = if double_buffering { 2 } else { 1 };
    let uni = PoolSize { kind: DescriptorKind::UniformBuffer, count: (copies * (uniform_num as u32)) as u32 };
    let sto = PoolSize { kind: DescriptorKind::StorageBuffer, count: (copies * (storage_num as u32)) as u32 };
    let cis = PoolSize { kind: DescriptorKind::CombinedImageSampler, count: (sampler_num * texture_num) as u32 };
    let u: Seq<PoolSize> = if uniform_num > 0 { seq![uni] } else { Seq::empty() };
    let st: Seq<PoolSize> = if storage_num > 0 { seq![sto] } else { Seq::empty() };
    let c: Seq<PoolSize> = if sampler_num + texture_num > 0 { seq![cis] } else { Seq::empty() };
    assert(pool =~= u + st + c);
    let us = u + st;
    assert forall|i: int| 0 <= i < pool.len() implies
        (#[trigger] pool[i] == uni && uniform_num > 0 && i == 0)
        || (pool[i] == sto && storage_num > 0 && i == u.len())
        || (pool[i] == cis && sampler_num + texture_num > 0 && i == us.len()) by {
        if i < u.len() {
            assert(pool[i] == u[i]);
        } else if i < us.len() {
            assert(pool[i] == st[i - u.len()]);
        } else {
            assert(pool[i] == c[i - us.len()]);
        }
    }
    if uniform_num > 0 {
        assert(pool[0] == uni);
        assert(pool[0].kind == DescriptorKind::UniformBuffer);
    }
    if storage_num > 0 {
        assert(pool[u.len() as int] == sto);
        assert(pool[u.len() as int].kind == DescriptorKind::StorageBuffer);
    }
    if sampler_num + texture_num > 0 {
        assert(pool[us.len() as int] == cis);
        assert(pool[us.len() as int].kind == DescriptorKind::CombinedImageSampler);
    }
    assert forall|i: int| 0 <= i < pool.len() && #[trigger] pool[i].kind == DescriptorKind::CombinedImageSampler
        implies pool[i] == cis && sampler_num + texture_num > 0 by {
        assert(pool[i] == uni || pool[i] == sto || pool[i] == cis);
    }
    assert forall|i: int| 0 <= i < pool.len() && #[trigger] pool[i].kind == DescriptorKind::UniformBuffer
        implies pool[i] == uni && uniform_num > 0 by {
        assert(pool[i] == uni || pool[i] == sto || pool[i] == cis);
    }
    assert forall|i: int| 0 <= i < pool.len() && #[trigger] pool[i].kind == DescriptorKind::StorageBuffer
        implies pool[i] == sto && storage_num > 0 by {
        assert(pool[i] == uni || pool[i] == sto || pool[i] == cis);
    }
}

/// Plans the descriptor pool, set layouts and sets of a new layout.
pub fn plan_layout(
    double_buffering: bool,
    texture_num: usize,
    sampler_num: usize,
    uniform_num: usize,
    storage_num: usize,
) -> (r: LayoutPlan)
    requires
        spec_layout_plan_fits(double_buffering, texture_num, sampler_num, uniform_num, storage_num),
    ensures
        r.buffer_count == spec_buffer_count(double_buffering),
        r.pool_sizes@ == spec_pool_sizes(double_buffering, texture_num, sampler_num, uniform_num, storage_num),
        (exists|i: int| 0 <= i < r.pool_sizes@.len() && #[trigger] r.pool_sizes@[i].kind == DescriptorKind::CombinedImageSampler)
            <==> texture_num + sampler_num > 0,
        forall|i: int| 0 <= i < r.pool_sizes@.len() && #[trigger] r.pool_sizes@[i].kind == DescriptorKind::CombinedImageSampler
            ==> r.pool_sizes@[i].count == (sampler_num * texture_num) as u32,
        (exists|i: int| 0 <= i < r.pool_sizes@.len() && #[trigger] r.pool_sizes@[i].kind == DescriptorKind::UniformBuffer)
            <==> uniform_num > 0,
        (exists|i: int| 0 <= i < r.pool_sizes@.len() && #[trigger] r.pool_sizes@[i].kind == DescriptorKind::StorageBuffer)
            <==> storage_num > 0,
        r.max_sets == spec_buffer_count(double_buffering) * ((uniform_num + storage_num + sampler_num) as u32),
        r.uniform_bindings == uniform_num,
        r.storage_bindings == storage_num,
        r.sampler_bindings == texture_num,
        r.uniform_sets == (if uniform_num > 0 { spec_buffer_count(double_buffering) as usize } else { 0 }),
        r.storage_sets == (if storage_num > 0 { spec_buffer_count(double_buffering) as usize } else { 0 }),
        r.sampler_sets == sampler_num,
{
    let buffer_count: u32 = if double_buffering { 2 } else { 1 };
    let mut pool_sizes: Vec<PoolSize> = Vec::new();
    if uniform_num > 0 {
        pool_sizes.push(PoolSize { kind: DescriptorKind::UniformBuffer, count: buffer_count * uniform_num as u32 });
    }
    if storage_num > 0 {
        pool_sizes.push(PoolSize { kind: DescriptorKind::StorageBuffer, count: buffer_count * storage_num as u32 });
    }
    if sampler_num + texture_num > 0 {
        pool_sizes.push(PoolSize { kind: DescriptorKind::CombinedImageSampler, count: (sampler_num * texture_num) as u32 });
    }
    let max_sets = buffer_count * (uniform_num + storage_num + sampler_num) as u32;
    assert(pool_sizes@ =~= spec_pool_sizes(double_buffering, texture_num, sampler_num, uniform_num, storage_num));
    proof {
        lemma_pool_sizes_by_kind(double_buffering, texture_num, sampler_num, uniform_num, storage_num);
    }
    LayoutPlan {
        buffer_count,
        pool_sizes,
        max_sets,
        uniform_bindings: uniform_num,
        storage_bindings: storage_num,
        sampler_bindings: texture_num,
        uniform_sets: if uniform_num > 0 { buffer_count as usize } else { 0 },
        storage_sets: if storage_num > 0 { buffer_count as usize } else { 0 },
        sampler_sets: sampler_num,
    }
}

/// Whether every slot below `k` is taken.
pub open spec fn spec_prefix_taken(dom: Set<usize>, k: usize) -> bool {
    forall|j: usize| j < k ==> dom.contains(j)
}

/// The least slot not taken in `dom`.
pub open spec fn spec_is_least_free(dom: Set<usize>, k: usize) -> bool {
    &&& !dom.contains(k)
    &&& spec_prefix_taken(dom, k)
}

/// A finite set of slots that holds every slot below `k` has at least `k` elements.
pub proof fn lemma_prefix_taken_len(dom: Set<usize>, k: usize)
    requires
        dom.finite(),
        spec_prefix_taken(dom, k),
    ensures
        k <= dom.len(),
    decreases k,
{
    if k > 0 {
        let last = (k - 1) as usize;
        let rest = dom.remove(last);
        assert(spec_prefix_taken(rest, last));
        lemma_prefix_taken_len(rest, last);
    }
}

/// The slots that a list of `(slot, reference count)` pairs counts 1.
pub open spec fn spec_unreferenced(counts: Seq<(usize, usize)>) -> Set<usize> {
    Set::new(|k: usize| exists|j: int| 0 <= j < counts.len() && counts[j] == (k, 1usize))
}

/// `counts` holds a pair for every slot of `slots`, and for no other slot.
pub open spec fn spec_counts_per_slot(slots: Set<usize>, counts: Seq<(usize, usize)>) -> bool {
    &&& forall|j: int| 0 <= j < counts.len() ==> slots.contains(#[trigger] counts[j].0)
    &&& forall|k: usize| slots.contains(k) ==> exists|j: int| 0 <= j < counts.len() && (#[trigger] counts[j]).0 == k
}

/// Releasing the slot that binding chose undoes the binding: a set bound to
/// the least free slot of a binding map, then released, leaves the map as it was.
pub proof fn lemma_release_undoes_bind(bound: Map<usize, Arc<GpuSamplerSet>>, id: usize, set: Arc<GpuSamplerSet>)
    requires
        spec_is_least_free(bound.dom(), id),
    ensures
        bound.insert(id, set).remove_keys(seq![id].to_set()) == bound,
{
    assert(seq![id].to_set() =~= set![id]) by {
        assert(seq![id][0] == id);
        assert(seq![id].contains(id));
    }
    assert(bound.insert(id, set).remove_keys(seq![id].to_set()) =~= bound);
}

/// One descriptor write of a buffer binding: which set receives which of the
/// buffer's copies.
#[derive(Clone, Copy, Debug, PartialEq, Eq, Structural)]
pub struct BufferWrite {
    /// Raw handle of the descriptor set written.
    pub set: u64,
    /// Copy of the buffer that the set points at.
    pub copy: usize,
}

/// What drawing one object takes: the sampler descriptor set to bind (for an
/// object with samplers), the pipeline, the mesh, its index type and the draw.
#[derive(Clone, Copy, Debug, PartialEq, Eq, Structural)]
pub struct ObjectDraw {
    pub sampler_set: Option<u64>,
    pub pipeline: u64,
    pub mesh: MeshBufferRef,
    pub index: IndexKind,
    pub params: DrawParams,
}

/// Where sampler sets are registered: the sampler slot that each set, by its
/// key, was last bound to. A key that was never recorded (a fresh set) is
/// registered nowhere.
pub struct SamplerRegistry {
    /// Slot by set key.
    pub slots: BTreeMap<usize, usize>,
}

/// The keys of `before` (pairs of slot and key) whose slot `bound` no longer binds.
pub open spec fn spec_released_keys(before: Seq<(usize, usize)>, bound: Set<usize>) -> Set<usize> {
    Set::new(|key: usize| exists|j: int| 0 <= j < before.len() && before[j].1 == key && !bound.contains(#[trigger] before[j].0))
}

impl SamplerRegistry {
    /// Slots by set key.
    pub open spec fn spec_slots(&self) -> Map<usize, usize> {
        self.slots@
    }

    /// The slot a key is registered at: `usize::MAX` when it is registered nowhere.
    pub open spec fn spec_slot_of(&self, key: usize) -> usize {
        if self.spec_slots().contains_key(key) { self.spec_slots()[key] } else { usize::MAX }
    }

    /// A registry where nothing is registered.
    pub fn new() -> (r: SamplerRegistry)
        ensures
            r.spec_slots() == Map::<usize, usize>::empty(),
    {
        SamplerRegistry { slots: BTreeMap::new() }
    }

    /// The slot a set's key is registered at, `usize::MAX` if none.
    pub fn slot_of(&self, key: usize) -> (r: usize)
        ensures
            r == self.spec_slot_of(key),
    {
        match self.slots.get(&key) {
            Some(slot) => *slot,
            None => usize::MAX,
        }
    }

    /// Forgets the sets of `before` (pairs of slot and key, read before the
    /// layout released slots) whose slot `state` no longer binds.
    pub fn forget_released(&mut self, before: &Vec<(usize, usize)>, state: &LayoutState)
        ensures
            final(self).spec_slots() == old(self).spec_slots().remove_keys(spec_released_keys(before@, state.spec_bound().dom())),
    {
        let mut i: usize = 0;
        while i < before.len()
            invariant
                i <= before@.len(),
                self.slots@ == old(self).slots@.remove_keys(
                    spec_released_keys(before@.subrange(0, i as int), state.bound@.dom())),
            decreases before@.len() - i,
        {
            let (slot, key) = before[i];
            let ghost prev = self.slots@;
            if !state.bound.contains_key(&slot) {
                self.slots.remove(&key);
            }
            proof {
                let done = spec_released_keys(before@.subrange(0, i as int), state.bound@.dom());
                let next = spec_released_keys(before@.subrange(0, i + 1), state.bound@.dom());
                assert forall|k: usize| next.contains(k) <==> (done.contains(k) || (k == key && !state.bound@.dom().contains(slot))) by {
                    if next.contains(k) {
                        let j = choose|j: int| 0 <= j < i + 1 && before@.subrange(0, i + 1)[j].1 == k
                            && !state.bound@.dom().contains(#[trigger] before@.subrange(0, i + 1)[j].0);
                        if j < i {
                            assert(before@.subrange(0, i as int)[j] == before@.subrange(0, i + 1)[j]);
                        }
                    }
                    if done.contains(k) {
                        let j = choose|j: int| 0 <= j < i && before@.subrange(0, i as int)[j].1 == k
                            && !state.bound@.dom().contains(#[trigger] before@.subrange(0, i as int)[j].0);
                        assert(before@.subrange(0, i as int)[j] == before@.subrange(0, i + 1)[j]);
                    }
                    if k == key && !state.bound@.dom().contains(slot) {
                        assert(before@.subrange(0, i + 1)[i as int] == (slot, key));
                    }
                }
                assert(self.slots@ =~= old(self).slots@.remove_keys(next));
            }
            i = i + 1;
        }
        assert(before@.subrange(0, before@.len() as int) =~= before@);
    }
}

/// The per-layout state: its descriptor sets, the pass that is current, the
/// sampler sets bound to sampler slots, and the samplers created so far,
/// keyed by mip level count.
pub struct LayoutState {
    /// Raw handles of the uniform descriptor sets, one per buffer copy.
    pub uniform_sets: Vec<u64>,
    /// Raw handles of the storage descriptor sets, one per buffer copy.
    pub storage_sets: Vec<u64>,
    /// Raw handles of the sampler descriptor sets, one per slot.
    pub sampler_sets: Vec<u64>,
    /// Buffer copy in use (alternates when double buffered).
    pub n_pass: usize,
    /// Whether buffers alternate between two copies.
    pub double_buffering: bool,
    /// Sampler sets by sampler slot.
    pub bound: BTreeMap<usize, Arc<GpuSamplerSet>>,
    /// Sampler handles by mip level count.
    pub samplers: BTreeMap<u32, u64>,
}

/// Calls `std::sync::Arc::strong_count`. The count depends on the references
/// that other parts of the program hold, so nothing is stated of it.
#[verifier::external_body]
fn arc_strong_count(set: &Arc<GpuSamplerSet>) -> usize {
    Arc::strong_count(set)
}

impl LayoutState {
    /// Sampler sets by slot.
    pub open spec fn spec_bound(&self) -> Map<usize, Arc<GpuSamplerSet>> {
        self.bound@
    }

    /// Sampler handles by mip level count.
    pub open spec fn spec_samplers(&self) -> Map<u32, u64> {
        self.samplers@
    }

    /// A fresh state over the given descriptor sets: first pass, nothing bound.
    pub fn new(
        uniform_sets: Vec<u64>,
        storage_sets: Vec<u64>,
        sampler_sets: Vec<u64>,
        double_buffering: bool,
    ) -> (r: LayoutState)
        ensures
            r.uniform_sets@ == uniform_sets@,
            r.storage_sets@ == storage_sets@,
            r.sampler_sets@ == sampler_sets@,
            r.n_pass == 0,
            r.double_buffering == double_buffering,
            r.spec_bound() == Map::<usize, Arc<GpuSamplerSet>>::empty(),
            r.spec_samplers() == Map::<u32, u64>::empty(),
    {
        LayoutState {
            uniform_sets,
            storage_sets,
            sampler_sets,
            n_pass: 0,
            double_buffering,
            bound: BTreeMap::new(),
            samplers: BTreeMap::new(),
        }
    }

    /// The least sampler slot that no set is bound to.
    fn least_free_slot(&self) -> (r: usize)
        ensures
            spec_is_least_free(self.bound@.dom(), r),
    {
        let len = self.bound.len();
        let mut k: usize = 0;
        while self.bound.contains_key(&k)
            invariant
                len == self.bound@.dom().len(),
                spec_prefix_taken(self.bound@.dom(), k),
                k <= len,
            decreases self.bound@.dom().len() - k,
        {
            proof {
                let rest = self.bound@.dom().remove(k);
                assert(spec_prefix_taken(rest, k));
                lemma_prefix_taken_len(rest, k);
            }
            k = k + 1;
        }
        k
    }

    /// Binds a sampler set to a sampler slot. `current_id` is the slot the set
    /// holds from an earlier binding, or `usize::MAX` if it holds none.
    ///
    /// A set that holds a slot which this layout does not bind is refused with
    /// `TransferError` (it is bound to another layout), and nothing changes.
    /// Otherwise its old slot is released, and the set is bound to the least
    /// free slot, which is returned.
    pub fn bind_sampler_set(&mut self, current_id: usize, set: Arc<GpuSamplerSet>) -> (r: Result<usize, GraphicsError>)
        ensures
            final(self).uniform_sets == old(self).uniform_sets,
            final(self).storage_sets == old(self).storage_sets,
            final(self).sampler_sets == old(self).sampler_sets,
            final(self).n_pass == old(self).n_pass,
            final(self).double_buffering == old(self).double_buffering,
            final(self).spec_samplers() == old(self).spec_samplers(),
            r is Err <==> (current_id != usize::MAX && !old(self).spec_bound().contains_key(current_id)),
            r matches Err(e) ==> e == GraphicsError::TransferError && final(self).spec_bound() == old(self).spec_bound(),
            r matches Ok(id) ==> {
                let released = if current_id == usize::MAX {
                    old(self).spec_bound()
                } else {
                    old(self).spec_bound().remove(current_id)
                };
                &&& spec_is_least_free(released.dom(), id)
                &&& final(self).spec_bound() == released.insert(id, set)
            },
    {
        if current_id != usize::MAX {
            match self.bound.remove(&current_id) {
                Some(_previous) => {},
                None => {
                    return Err(GraphicsError::TransferError);
                },
            }
        }
        let id = self.least_free_slot();
        self.bound.insert(id, set);
        Ok(id)
    }

    /// Registers a sampler set, known to `registry` by `key`, in this layout:
    /// it is bound as `bind_sampler_set` binds it, from the slot the registry
    /// holds for it, and on success the registry records its new slot. A
    /// refused binding changes neither.
    pub fn register_sampler_set(&mut self, registry: &mut SamplerRegistry, key: usize, set: Arc<GpuSamplerSet>) -> (r: Result<usize, GraphicsError>)
        ensures
            ({
                let current = old(registry).spec_slot_of(key);
                &&& r is Err <==> (current != usize::MAX && !old(self).spec_bound().contains_key(current))
                &&& r matches Err(e) ==> e == GraphicsError::TransferError
                    && final(self).spec_bound() == old(self).spec_bound()
                    && final(registry).spec_slots() == old(registry).spec_slots()
                &&& r matches Ok(id) ==> {
                    let released = if current == usize::MAX {
                        old(self).spec_bound()
                    } else {
                        old(self).spec_bound().remove(current)
                    };
                    &&& spec_is_least_free(released.dom(), id)
                    &&& final(self).spec_bound() == released.insert(id, set)
                    &&& final(registry).spec_slots() == old(registry).spec_slots().insert(key, id)
                }
            }),
            final(self).uniform_sets == old(self).uniform_sets,
            final(self).storage_sets == old(self).storage_sets,
            final(self).sampler_sets == old(self).sampler_sets,
            final(self).n_pass == old(self).n_pass,
            final(self).double_buffering == old(self).double_buffering,
            final(self).spec_samplers() == old(self).spec_samplers(),
    {
        let current = registry.slot_of(key);
        let r = self.bind_sampler_set(current, set);
        match r {
            Ok(id) => {
                registry.slots.insert(key, id);
            },
            Err(_) => {},
        }
        r
    }

    /// Releases the given slots (a slot that is not bound is left as it is).
    pub fn release_slots(&mut self, slots: &Vec<usize>)
        ensures
            final(self).uniform_sets == old(self).uniform_sets,
            final(self).storage_sets == old(self).storage_sets,
            final(self).sampler_sets == old(self).sampler_sets,
            final(self).n_pass == old(self).n_pass,
            final(self).double_buffering == old(self).double_buffering,
            final(self).spec_samplers() == old(self).spec_samplers(),
            final(self).spec_bound() == old(self).spec_bound().remove_keys(slots@.to_set()),
    {
        let mut i: usize = 0;
        while i < slots.len()
            invariant
                i <= slots@.len(),
                self.uniform_sets == old(self).uniform_sets,
                self.storage_sets == old(self).storage_sets,
                self.sampler_sets == old(self).sampler_sets,
                self.n_pass == old(self).n_pass,
                self.double_buffering == old(self).double_buffering,
                self.samplers@ == old(self).samplers@,
                self.bound@ == old(self).bound@.remove_keys(slots@.subrange(0, i as int).to_set()),
            decreases slots@.len() - i,
        {
            let slot = slots[i];
            self.bound.remove(&slot);
            proof {
                assert(slots@.subrange(0, i + 1) =~= slots@.subrange(0, i as int).push(slot));
                slots@.subrange(0, i as int).lemma_push_to_set_commute(slot);
                assert(self.bound@ =~= old(self).bound@.remove_keys(slots@.subrange(0, i + 1).to_set()));
            }
            i = i + 1;
        }
        assert(slots@.subrange(0, slots@.len() as int) =~= slots@);
    }

    /// Advances to the next pass: the other buffer copy when double buffered.
    pub fn advance_pass(&mut self)
        requires
            old(self).n_pass < 2,
        ensures
            final(self).n_pass == (if old(self).double_buffering { ((old(self).n_pass + 1) % 2) as usize } else { old(self).n_pass }),
            final(self).uniform_sets == old(self).uniform_sets,
            final(self).storage_sets == old(self).storage_sets,
            final(self).sampler_sets == old(self).sampler_sets,
            final(self).double_buffering == old(self).double_buffering,
            final(self).spec_bound() == old(self).spec_bound(),
            final(self).spec_samplers() == old(self).spec_samplers(),
    {
        if self.double_buffering {
            self.n_pass = (self.n_pass + 1) % 2;
        }
    }

    /// Releases the slots whose sampler set this layout alone holds, given a
    /// reference count per slot: `(slot, count)`, where a count of 1 means that
    /// nothing but this layout holds the set. Returns the number of slots
    /// released.
    pub fn release_unreferenced(&mut self, counts: &Vec<(usize, usize)>) -> (r: usize)
        ensures
            final(self).spec_bound() == old(self).spec_bound().remove_keys(spec_unreferenced(counts@)),
            r == old(self).spec_bound().dom().len() - final(self).spec_bound().dom().len(),
            final(self).uniform_sets == old(self).uniform_sets,
            final(self).storage_sets == old(self).storage_sets,
            final(self).sampler_sets == old(self).sampler_sets,
            final(self).n_pass == old(self).n_pass,
            final(self).double_buffering == old(self).double_buffering,
            final(self).spec_samplers() == old(self).spec_samplers(),
    {
        let mut unreferenced: Vec<usize> = Vec::new();
        let mut i: usize = 0;
        while i < counts.len()
            invariant
                i <= counts@.len(),
                forall|k: usize| unreferenced@.contains(k) <==> exists|j: int| 0 <= j < i && #[trigger] counts@[j] == (k, 1usize),
            decreases counts@.len() - i,
        {
            let (slot, count) = counts[i];
            let ghost prev = unreferenced@;
            if count == 1 {
                unreferenced.push(slot);
            }
            proof {
                assert forall|k: usize| unreferenced@.contains(k) <==> exists|j: int| 0 <= j < i + 1 && #[trigger] counts@[j] == (k, 1usize) by {
                    let now_counted = count == 1 && slot == k;
                    if unreferenced@.contains(k) {
                        let m = choose|m: int| 0 <= m < unreferenced@.len() && unreferenced@[m] == k;
                        if m < prev.len() {
                            assert(prev[m] == k);
                            assert(prev.contains(k));
                        } else {
                            assert(now_counted);
                            assert(counts@[i as int] == (k, 1usize));
                        }
                    }
                    if exists|j: int| 0 <= j < i + 1 && #[trigger] counts@[j] == (k, 1usize) {
                        let j = choose|j: int| 0 <= j < i + 1 && #[trigger] counts@[j] == (k, 1usize);
                        if j < i {
                            assert(prev.contains(k));
                            let m = choose|m: int| 0 <= m < prev.len() && prev[m] == k;
                            assert(unreferenced@[m] == k);
                        } else {
                            assert(now_counted);
                            assert(unreferenced@[prev.len() as int] == k);
                        }
                    }
                }
            }
            i = i + 1;
        }
        assert(unreferenced@.to_set() =~= spec_unreferenced(counts@));
        let ghost before = self.bound@;
        let count_before = self.bound.len();
        self.release_slots(&unreferenced);
        proof {
            assert(self.bound@.dom().subset_of(before.dom()));
            vstd::set_lib::lemma_len_subset(self.bound@.dom(), before.dom());
        }
        let count_after = self.bound.len();
        count_before - count_after
    }

    /// Releases every slot whose sampler set nothing outside this layout
    /// holds any more, then advances to the next pass. Returns the number of
    /// slots released.
    ///
    /// One reference count is read per bound slot; how large each is depends on
    /// the rest of the program. Whatever they are, exactly the slots counted 1
    /// are released (`release_unreferenced`).
    pub fn update_data(&mut self) -> (r: usize)
        requires
            old(self).n_pass < 2,
        ensures
            exists|counts: Seq<(usize, usize)>| {
                &&& #[trigger] spec_counts_per_slot(old(self).spec_bound().dom(), counts)
                &&& final(self).spec_bound() == old(self).spec_bound().remove_keys(spec_unreferenced(counts))
            },
            r == old(self).spec_bound().dom().len() - final(self).spec_bound().dom().len(),
            final(self).n_pass == (if old(self).double_buffering { ((old(self).n_pass + 1) % 2) as usize } else { old(self).n_pass }),
            final(self).uniform_sets == old(self).uniform_sets,
            final(self).storage_sets == old(self).storage_sets,
            final(self).sampler_sets == old(self).sampler_sets,
            final(self).double_buffering == old(self).double_buffering,
            final(self).spec_samplers() == old(self).spec_samplers(),
    {
        broadcast use vstd::std_specs::btree::axiom_spec_keys_iter;
        let ghost keys = vstd::std_specs::btree::spec_keys_iter(&self.bound).remaining();
        let mut counts: Vec<(usize, usize)> = Vec::new();
        for k in it: self.bound.keys()
            invariant
                it.seq() == keys,
                counts@.len() == it.index(),
                forall|j: int| 0 <= j < counts@.len() ==> (#[trigger] counts@[j]).0 == *keys[j],
        {
            let count = match self.bound.get(k) {
                Some(set) => arc_strong_count(set),
                None => 0,
            };
            counts.push((*k, count));
        }
        proof {
            assert(keys.unref().to_set() == self.bound@.dom());
            assert forall|j: int| 0 <= j < counts@.len() implies old(self).spec_bound().dom().contains(#[trigger] counts@[j].0) by {
                assert(keys.unref()[j] == *keys[j]);
                assert(keys.unref().contains(keys.unref()[j]));
            }
            assert forall|k: usize| old(self).spec_bound().dom().contains(k) implies exists|j: int| 0 <= j < counts@.len() && (#[trigger] counts@[j]).0 == k by {
                assert(keys.unref().to_set().contains(k));
                assert(keys.unref().contains(k));
                let j = choose|j: int| 0 <= j < keys.unref().len() && keys.unref()[j] == k;
                assert(counts@[j].0 == k);
            }
            assert(spec_counts_per_slot(old(self).spec_bound().dom(), counts@));
        }
        let released = self.release_unreferenced(&counts);
        self.advance_pass();
        released
    }

    /// Plans the draw of one object on a pipeline of this layout.
    /// `sampler_slot` is the slot its sampler set is bound to (`usize::MAX` if
    /// it is registered nowhere). An object whose sampler set has no slot of
    /// this layout is refused with `DataError`; any other is drawn with its
    /// slot's sampler descriptor set bound.
    pub fn object_draw(&self, object: &Object, sampler_slot: usize) -> (r: Result<ObjectDraw, GraphicsError>)
        requires
            object.mesh_buffer is Some,
            object.mesh_buffer.unwrap().index_size > 0,
        ensures
            r is Err <==> (object.sampler is Some && sampler_slot >= self.sampler_sets@.len()),
            r matches Err(e) ==> e == GraphicsError::DataError,
            r matches Ok(d) ==> {
                let mesh = object.mesh_buffer.unwrap();
                &&& d.sampler_set == (if object.sampler is Some { Some(self.sampler_sets@[sampler_slot as int]) } else { None::<u64> })
                &&& d.pipeline == object.pipeline.handle
                &&& d.mesh == mesh
                &&& d.index == (if mesh.index_size == 1 {
                    IndexKind::Uint8
                } else if mesh.index_size == 2 {
                    IndexKind::Uint16
                } else if mesh.index_size == 4 {
                    IndexKind::Uint32
                } else {
                    IndexKind::Unknown
                })
                &&& d.params == (DrawParams {
                    index_count: (mesh.index_bytes / (mesh.index_size as u64)) as u32,
                    instance_count: object.array,
                    first_instance: object.index,
                })
            },
    {
        let sampler_set = match &object.sampler {
            Some(_) => {
                if sampler_slot >= self.sampler_sets.len() {
                    return Err(GraphicsError::DataError);
                }
                Some(self.sampler_sets[sampler_slot])
            },
            None => None,
        };
        let mesh = match object.mesh_buffer {
            Some(m) => m,
            None => {
                return Err(GraphicsError::DataError);
            },
        };
        Ok(ObjectDraw {
            sampler_set,
            pipeline: object.pipeline.handle,
            mesh,
            index: index_kind(mesh.index_size),
            params: draw_params(&mesh, object.index, object.array),
        })
    }

    /// The sampler created for images with `mip_levels` mip levels, if any.
    pub fn cached_sampler(&self, mip_levels: u32) -> (r: Option<u64>)
        ensures
            r == (if self.spec_samplers().contains_key(mip_levels) { Some(self.spec_samplers()[mip_levels]) } else { None::<u64> }),
    {
        match self.samplers.get(&mip_levels) {
            Some(s) => Some(*s),
            None => None,
        }
    }

    /// Remembers the sampler created for images with `mip_levels` mip levels.
    pub fn remember_sampler(&mut self, mip_levels: u32, sampler: u64)
        ensures
            final(self).spec_samplers() == old(self).spec_samplers().insert(mip_levels, sampler),
            final(self).spec_bound() == old(self).spec_bound(),
            final(self).uniform_sets == old(self).uniform_sets,
            final(self).storage_sets == old(self).storage_sets,
            final(self).sampler_sets == old(self).sampler_sets,
            final(self).n_pass == old(self).n_pass,
            final(self).double_buffering == old(self).double_buffering,
    {
        self.samplers.insert(mip_levels, sampler);
    }

    /// The sampler set bound to a slot, if any.
    pub fn bound_set(&self, slot: usize) -> (r: Option<Arc<GpuSamplerSet>>)
        ensures
            r == (if self.spec_bound().contains_key(slot) { Some(self.spec_bound()[slot]) } else { None::<Arc<GpuSamplerSet>> }),
    {
        match self.bound.get(&slot) {
            Some(s) => Some(s.clone()),
            None => None,
        }
    }

    /// The descriptor sets bound for a draw or dispatch: the uniform and the
    /// storage set of the current pass.
    pub fn descriptor_sets(&self) -> (r: Vec<u64>)
        requires
            self.n_pass < self.uniform_sets@.len(),
            self.n_pass < self.storage_sets@.len(),
        ensures
            r@ == seq![self.uniform_sets@[self.n_pass as int], self.storage_sets@[self.n_pass as int]],
    {
        let mut r: Vec<u64> = Vec::new();
        r.push(self.uniform_sets[self.n_pass]);
        r.push(self.storage_sets[self.n_pass]);
        r
    }

    /// The sampler descriptor set of a slot.
    pub fn sampler_set(&self, slot: usize) -> (r: u64)
        requires
            slot < self.sampler_sets@.len(),
        ensures
            r == self.sampler_sets@[slot as int],
    {
        self.sampler_sets[slot]
    }

    /// The descriptor writes that bind a buffer: a uniform buffer (one whose
    /// usage has the uniform bit) goes to the uniform sets, any other to the
    /// storage sets; copy `i` of the buffer goes to set `i`. A buffer with a
    /// single copy in a double buffered layout also goes to set 1.
    pub fn buffer_writes(&self, usage: u32, copies: usize, count: usize) -> (r: Vec<BufferWrite>)
        requires
            copies <= (if contains(usage, 0x10) { self.uniform_sets@.len() } else { self.storage_sets@.len() }),
            count == 1 && self.double_buffering ==> 2 <= (if contains(usage, 0x10) { self.uniform_sets@.len() } else { self.storage_sets@.len() }),
        ensures
            ({
                let sets = if contains(usage, 0x10) { self.uniform_sets@ } else { self.storage_sets@ };
                let extra = count == 1 && self.double_buffering;
                &&& r@.len() == copies + (if extra { 1int } else { 0 })
                &&& forall|i: int| 0 <= i < copies ==> #[trigger] r@[i] == (BufferWrite { set: sets[i], copy: i as usize })
                &&& extra ==> r@[copies as int] == (BufferWrite { set: sets[1], copy: 0 })
            }),
    {
        let bits = buffer_usage_bits();
        let uniform = usage & bits.uniform_buffer == bits.uniform_buffer;
        let sets = if uniform { &self.uniform_sets } else { &self.storage_sets };
        let mut r: Vec<BufferWrite> = Vec::new();
        let mut i: usize = 0;
        while i < copies
            invariant
                i <= copies,
                copies <= sets@.len(),
                r@.len() == i,
                forall|j: int| 0 <= j < i ==> #[trigger] r@[j] == (BufferWrite { set: sets@[j], copy: j as usize }),
            decreases copies - i,
        {
            r.push(BufferWrite { set: sets[i], copy: i });
            i = i + 1;
        }
        if count == 1 && self.double_buffering {
            r.push(BufferWrite { set: sets[1], copy: 0 });
        }
        r
    }
}

} // verus!
