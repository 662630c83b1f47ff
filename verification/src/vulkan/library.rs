//! Frame orchestration: how the previous frame's presentation and the image
//! acquisition steer the next frame, and how objects are split between the
//! compute and the graphics pass.
use std::sync::Arc;
use vstd::prelude::*;
use crate::errors::GraphicsError;
use crate::object::Object;
use crate::vulkan::sync::FrameSync;
use crate::vulkan::vkbits::result_values;

verus! {

/// What the last presentation reported.
#[derive(Clone, Copy, Debug, PartialEq, Eq, Structural)]
pub struct PresentResult {
    /// The swapchain no longer matches the surface.
    pub out_of_date: bool,
    /// The swapchain still works but no longer matches the surface exactly.
    pub suboptimal: bool,
}

impl core::default::Default for PresentResult {
    fn default() -> (r: Self)
        ensures
            !r.out_of_date,
            !r.suboptimal,
    {
        PresentResult { out_of_date: false, suboptimal: false }
    }
}

impl PresentResult {
    /// Records the outcome of a presentation: `None` for success, otherwise the
    /// raw result code it failed with.
    pub fn from_present(outcome: Option<i32>) -> (r: PresentResult)
        ensures
            r.out_of_date == (outcome == Some(-1000001004i32)),
            r.suboptimal == (outcome == Some(1000001003i32)),
    {
        let values = result_values();
        match outcome {
            None => PresentResult { out_of_date: false, suboptimal: false },
            Some(code) => PresentResult { out_of_date: code == values.out_of_date, suboptimal: code == values.suboptimal },
        }
    }

    /// What a frame does first after this presentation: recreate the swapchain
    /// (when it was out of date), and refresh the render target's resources
    /// (when it was suboptimal).
    pub fn frame_start_actions(&self) -> (r: (bool, bool))
        ensures
            r == (self.out_of_date, self.suboptimal),
    {
        (self.out_of_date, self.suboptimal)
    }
}

/// Records an acquired swapchain image in the frame ring, which was advanced
/// to the next frame before the acquisition. A suboptimal acquisition steps
/// the ring back and reports the raw suboptimal result code; otherwise
/// nothing is reported.
pub fn finish_acquire(sync: &mut FrameSync, image_index: u32, suboptimal: bool) -> (r: Option<i32>)
    requires
        old(sync).wf(),
        old(sync).barrier_count > 0,
    ensures
        final(sync).wf(),
        r == (if suboptimal { Some(1000001003i32) } else { None::<i32> }),
        *final(sync) == (if suboptimal {
            (FrameSync { image_index, ..*old(sync) }).spec_unflip()
        } else {
            FrameSync { image_index, ..*old(sync) }
        }),
{
    sync.set_image_index(image_index);
    if suboptimal {
        sync.unflip();
        Some(result_values().suboptimal)
    } else {
        None
    }
}

/// A suboptimal acquisition leaves the frame ring where it was before the
/// frame advanced it: only the acquired image is recorded.
pub proof fn lemma_suboptimal_acquire_restores_ring(s: FrameSync, image_index: u32)
    requires
        s.wf(),
        s.barrier_count > 0,
    ensures
        (FrameSync { image_index, ..s.spec_flip() }).spec_unflip() == (FrameSync { image_index, ..s }),
{
    crate::vulkan::sync::lemma_unflip_undoes_flip(s);
}

/// What a frame does after trying to acquire an image.
#[derive(Clone, Copy, Debug, PartialEq, Eq, Structural)]
pub enum AcquireAction {
    /// Render into the acquired image.
    Proceed,
    /// Recreate the swapchain and refresh the render target, then render.
    Recreate,
    /// Give up on the frame with this error.
    Fail(GraphicsError),
}

/// Decides how a frame goes on after the acquisition: `None` for success,
/// otherwise the raw result code. An out-of-date swapchain is recreated;
/// any other failure (a suboptimal one too) fails the frame with `RenderingError`.
pub fn acquire_action(outcome: Option<i32>) -> (r: AcquireAction)
    ensures
        r == (match outcome {
            None => AcquireAction::Proceed,
            Some(code) => if code == -1000001004i32 {
                AcquireAction::Recreate
            } else {
                AcquireAction::Fail(GraphicsError::RenderingError)
            },
        }),
{
    let values = result_values();
    match outcome {
        None => AcquireAction::Proceed,
        Some(code) => {
            if code == values.out_of_date {
                AcquireAction::Recreate
            } else {
                AcquireAction::Fail(GraphicsError::RenderingError)
            }
        },
    }
}

/// The indices, in order, of the first `n` objects that dispatch compute work.
pub open spec fn spec_compute_members(objects: Seq<Arc<Object>>, n: nat) -> Seq<usize>
    decreases n,
{
    if n == 0 {
        Seq::empty()
    } else {
        let prev = spec_compute_members(objects, (n - 1) as nat);
        if objects[n - 1].groups is Some { prev.push((n - 1) as usize) } else { prev }
    }
}

/// Lists, in order, the objects that the compute pass dispatches: those with
/// work groups.
pub fn compute_objects(objects: &[Arc<Object>]) -> (r: Vec<usize>)
    ensures
        r@ == spec_compute_members(objects@, objects@.len()),
{
    let mut r: Vec<usize> = Vec::new();
    let mut i: usize = 0;
    while i < objects.len()
        invariant
            i <= objects@.len(),
            r@ == spec_compute_members(objects@, i as nat),
        decreases objects@.len() - i,
    {
        if objects[i].groups.is_some() {
            r.push(i);
        }
        i = i + 1;
    }
    r
}

/// The indices, in order, of the first `n` objects that draw through the
/// pipeline layout `layout` (objects without work groups).
pub open spec fn spec_layout_members(objects: Seq<Arc<Object>>, layout: u64, n: nat) -> Seq<usize>
    decreases n,
{
    if n == 0 {
        Seq::empty()
    } else {
        let prev = spec_layout_members(objects, layout, (n - 1) as nat);
        let o = objects[n - 1];
        if o.groups is None && o.pipeline.layout == layout { prev.push((n - 1) as usize) } else { prev }
    }
}

/// `layouts` and `members` group the first `n` drawing objects by pipeline
/// layout: layouts strictly increase, each group lists in order the objects
/// of its layout, and every drawing object's layout has a group.
pub open spec fn spec_grouped(objects: Seq<Arc<Object>>, layouts: Seq<u64>, members: Seq<Vec<usize>>, n: nat) -> bool {
    &&& layouts.len() == members.len()
    &&& forall|g: int, h: int| 0 <= g < h < layouts.len() ==> layouts[g] < layouts[h]
    &&& forall|g: int| 0 <= g < layouts.len() ==> (#[trigger] members[g])@ == spec_layout_members(objects, layouts[g], n)
    &&& forall|g: int| 0 <= g < layouts.len() ==> (#[trigger] members[g])@.len() > 0
    &&& forall|i: int| 0 <= i < n && (#[trigger] objects[i]).groups is None ==> layouts.contains(objects[i].pipeline.layout)
}

/// Members of a layout are unchanged by an object of another layout or a
/// compute object.
proof fn lemma_layout_members_step(objects: Seq<Arc<Object>>, layout: u64, n: nat)
    requires
        n < objects.len(),
    ensures
        spec_layout_members(objects, layout, n + 1) == (if objects[n as int].groups is None && objects[n as int].pipeline.layout == layout {
            spec_layout_members(objects, layout, n).push(n as usize)
        } else {
            spec_layout_members(objects, layout, n)
        }),
{
}

/// Groups the drawing objects (those without work groups) by pipeline layout,
/// in increasing order of the layout's raw handle; within a group objects keep
/// their order. Returns the layouts and, for each, the indices of its objects.
pub fn group_by_layout(objects: &[Arc<Object>]) -> (r: (Vec<u64>, Vec<Vec<usize>>))
    ensures
        spec_grouped(objects@, r.0@, r.1@, objects@.len()),
{
    let mut layouts: Vec<u64> = Vec::new();
    let mut members: Vec<Vec<usize>> = Vec::new();
    let mut i: usize = 0;
    while i < objects.len()
        invariant
            i <= objects@.len(),
            spec_grouped(objects@, layouts@, members@, i as nat),
        decreases objects@.len() - i,
    {
        let ghost old_layouts = layouts@;
        let ghost old_members = members@;
        proof {
            assert forall|k: u64| true implies #[trigger] spec_layout_members(objects@, k, (i + 1) as nat) == (if objects@[i as int].groups is None && objects@[i as int].pipeline.layout == k {
                spec_layout_members(objects@, k, i as nat).push(i)
            } else {
                spec_layout_members(objects@, k, i as nat)
            }) by {
                lemma_layout_members_step(objects@, k, i as nat);
            }
        }
        if objects[i].groups.is_none() {
            let key = objects[i].pipeline.layout;
            let mut pos: usize = 0;
            while pos < layouts.len() && layouts[pos] < key
                invariant
                    pos <= layouts@.len(),
                    layouts@ == old_layouts,
                    forall|g: int| 0 <= g < pos ==> layouts@[g] < key,
                decreases layouts@.len() - pos,
            {
                pos = pos + 1;
            }
            if pos < layouts.len() && layouts[pos] == key {
                let mut m: Vec<usize> = Vec::new();
                members.set_and_swap(pos, &mut m);
                m.push(i);
                members.set_and_swap(pos, &mut m);
                proof {
                    assert forall|g: int| 0 <= g < layouts@.len() implies (#[trigger] members@[g])@ == spec_layout_members(objects@, layouts@[g], (i + 1) as nat) by {
                        if g != pos {
                            assert(layouts@[g] != key);
                        }
                    }
                    assert forall|j: int| 0 <= j < i + 1 && (#[trigger] objects@[j]).groups is None implies layouts@.contains(objects@[j].pipeline.layout) by {
                        if j == i {
                            assert(layouts@[pos as int] == key);
                        }
                    }
                }
            } else {
                let mut m: Vec<usize> = Vec::new();
                m.push(i);
                proof {
                    assert forall|g: int| 0 <= g < layouts@.len() implies layouts@[g] != key by {
                        if g >= pos {
                            if g > pos {
                                assert(layouts@[pos as int] < layouts@[g]);
                            }
                        }
                    }
                    assert(spec_layout_members(objects@, key, i as nat).len() == 0) by {
                        lemma_absent_layout_has_no_members(objects@, key, i as nat);
                    }
                }
                layouts.insert(pos, key);
                members.insert(pos, m);
                proof {
                    assert forall|g: int, h: int| 0 <= g < h < layouts@.len() implies layouts@[g] < layouts@[h] by {
                        if h == pos {
                        } else if g == pos {
                            assert(layouts@[h] == old_layouts[h - 1]);
                            if h - 1 > pos {
                                assert(old_layouts[pos as int] < old_layouts[h - 1]);
                            }
                        }
                    }
                    assert forall|g: int| 0 <= g < layouts@.len() implies (#[trigger] members@[g])@ == spec_layout_members(objects@, layouts@[g], (i + 1) as nat) by {
                        if g < pos {
                            assert(members@[g] == old_members[g]);
                        } else if g > pos {
                            assert(members@[g] == old_members[g - 1]);
                        }
                    }
                    assert forall|j: int| 0 <= j < i + 1 && (#[trigger] objects@[j]).groups is None implies layouts@.contains(objects@[j].pipeline.layout) by {
                        if j == i {
                            assert(layouts@[pos as int] == key);
                        } else {
                            let w = choose|w: int| 0 <= w < old_layouts.len() && old_layouts[w] == objects@[j].pipeline.layout;
                            if w < pos {
                                assert(layouts@[w] == old_layouts[w]);
                            } else {
                                assert(layouts@[w + 1] == old_layouts[w]);
                            }
                        }
                    }
                    assert forall|g: int| 0 <= g < layouts@.len() implies (#[trigger] members@[g])@.len() > 0 by {
                        if g < pos {
                            assert(members@[g] == old_members[g]);
                        } else if g > pos {
                            assert(members@[g] == old_members[g - 1]);
                        }
                    }
                }
            }
        } else {
            proof {
                assert forall|j: int| 0 <= j < i + 1 && (#[trigger] objects@[j]).groups is None implies layouts@.contains(objects@[j].pipeline.layout) by {
                }
            }
        }
        i = i + 1;
    }
    (layouts, members)
}

/// The compute list of the first `n` objects holds exactly the indices of
/// those with work groups.
pub proof fn lemma_compute_members_contains(objects: Seq<Arc<Object>>, n: nat, i: int)
    requires
        n <= objects.len() <= usize::MAX,
        0 <= i < n,
    ensures
        spec_compute_members(objects, n).contains(i as usize) <==> objects[i].groups is Some,
    decreases n,
{
    let prev = spec_compute_members(objects, (n - 1) as nat);
    lemma_members_below(objects, (n - 1) as nat);
    if i < n - 1 {
        lemma_compute_members_contains(objects, (n - 1) as nat, i);
    }
    vstd::seq_lib::lemma_seq_contains_after_push(prev, (n - 1) as usize, i as usize);
    if i == n - 1 && prev.contains(i as usize) {
        let k = choose|k: int| 0 <= k < prev.len() && prev[k] == i as usize;
        assert(prev[k] < n - 1);
    }
}

/// The compute list of the first `n` objects holds indices below `n`.
pub proof fn lemma_members_below(objects: Seq<Arc<Object>>, n: nat)
    requires
        n <= objects.len() <= usize::MAX,
    ensures
        forall|k: int| 0 <= k < spec_compute_members(objects, n).len() ==> #[trigger] spec_compute_members(objects, n)[k] < n,
    decreases n,
{
    if n > 0 {
        lemma_members_below(objects, (n - 1) as nat);
        let prev = spec_compute_members(objects, (n - 1) as nat);
        let cur = spec_compute_members(objects, n);
        assert forall|k: int| 0 <= k < cur.len() implies #[trigger] cur[k] < n by {
            if k < prev.len() {
                assert(cur[k] == prev[k]);
            }
        }
    }
}

/// The layout group of the first `n` objects holds exactly the indices of
/// the drawing objects of that layout.
pub proof fn lemma_layout_members_contains(objects: Seq<Arc<Object>>, layout: u64, n: nat, i: int)
    requires
        n <= objects.len() <= usize::MAX,
        0 <= i < n,
    ensures
        spec_layout_members(objects, layout, n).contains(i as usize) <==> (objects[i].groups is None && objects[i].pipeline.layout == layout),
    decreases n,
{
    let prev = spec_layout_members(objects, layout, (n - 1) as nat);
    lemma_layout_members_below(objects, layout, (n - 1) as nat);
    if i < n - 1 {
        lemma_layout_members_contains(objects, layout, (n - 1) as nat, i);
    }
    vstd::seq_lib::lemma_seq_contains_after_push(prev, (n - 1) as usize, i as usize);
    if i == n - 1 && prev.contains(i as usize) {
        let k = choose|k: int| 0 <= k < prev.len() && prev[k] == i as usize;
        assert(prev[k] < n - 1);
    }
}

/// A layout group of the first `n` objects holds indices below `n`.
pub proof fn lemma_layout_members_below(objects: Seq<Arc<Object>>, layout: u64, n: nat)
    requires
        n <= objects.len() <= usize::MAX,
    ensures
        forall|k: int| 0 <= k < spec_layout_members(objects, layout, n).len() ==> #[trigger] spec_layout_members(objects, layout, n)[k] < n,
    decreases n,
{
    if n > 0 {
        lemma_layout_members_below(objects, layout, (n - 1) as nat);
        let prev = spec_layout_members(objects, layout, (n - 1) as nat);
        let cur = spec_layout_members(objects, layout, n);
        assert forall|k: int| 0 <= k < cur.len() implies #[trigger] cur[k] < n by {
            if k < prev.len() {
                assert(cur[k] == prev[k]);
            }
        }
    }
}

/// Every object goes to exactly one pass: an object is dispatched by the
/// compute pass exactly when it is drawn in no layout group of the graphics
/// pass, and a drawn object is drawn in the group of its own layout.
pub proof fn lemma_objects_partitioned(objects: Seq<Arc<Object>>, layouts: Seq<u64>, members: Seq<Vec<usize>>, i: int)
    requires
        objects.len() <= usize::MAX,
        spec_grouped(objects, layouts, members, objects.len()),
        0 <= i < objects.len(),
    ensures
        spec_compute_members(objects, objects.len()).contains(i as usize) <==> !(exists|g: int| 0 <= g < layouts.len() && (#[trigger] members[g])@.contains(i as usize)),
        objects[i].groups is None ==> exists|g: int| 0 <= g < layouts.len() && layouts[g] == objects[i].pipeline.layout && (#[trigger] members[g])@.contains(i as usize),
{
    lemma_compute_members_contains(objects, objects.len(), i);
    if objects[i].groups is None {
        let g = choose|g: int| 0 <= g < layouts.len() && layouts[g] == objects[i].pipeline.layout;
        lemma_layout_members_contains(objects, layouts[g], objects.len(), i);
        assert(members[g]@.contains(i as usize));
    } else {
        assert forall|g: int| 0 <= g < layouts.len() implies !(#[trigger] members[g])@.contains(i as usize) by {
            lemma_layout_members_contains(objects, layouts[g], objects.len(), i);
        }
    }
}

/// A layout that no drawing object among the first `n` uses has no members.
proof fn lemma_absent_layout_has_no_members(objects: Seq<Arc<Object>>, layout: u64, n: nat)
    requires
        n <= objects.len(),
        forall|i: int| 0 <= i < n && (#[trigger] objects[i]).groups is None ==> objects[i].pipeline.layout != layout,
    ensures
        spec_layout_members(objects, layout, n).len() == 0,
    decreases n,
{
    if n > 0 {
        lemma_absent_layout_has_no_members(objects, layout, (n - 1) as nat);
    }
}

} // verus!
