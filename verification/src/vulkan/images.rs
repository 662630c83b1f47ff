//! Images: mip chains, layout transitions and format choices.
use vstd::prelude::*;
use crate::errors::GraphicsError;
use crate::vulkan::vkbits::{contains, format_feature_bits, format_values};

verus! {

/// The largest `k` with `2^k <= n` (0 for `n <= 1`).
pub open spec fn spec_floor_log2(n: nat) -> nat
    decreases n,
{
    if n <= 1 { 0 } else { 1 + spec_floor_log2(n / 2) }
}

/// Number of mip levels of an image: `floor(log2(max(width, height)))` when
/// mips are generated (0 for an empty image), otherwise 1.
pub open spec fn spec_mip_levels(width: u32, height: u32, generate_mips: bool) -> u32 {
    if !generate_mips {
        1
    } else {
        let m = if width > height { width } else { height };
        if m == 0 { 0 } else { spec_floor_log2(m as nat) as u32 }
    }
}

/// `floor(log2(n))` is at most `n`.
pub proof fn lemma_floor_log2_le(n: nat)
    ensures
        spec_floor_log2(n) <= n,
    decreases n,
{
    if n > 1 {
        lemma_floor_log2_le(n / 2);
    }
}

/// Counts the mip levels of an image: `floor(log2(max(width, height)))`,
/// computed on integers.
pub fn mip_levels(width: u32, height: u32, generate_mips: bool) -> (r: u32)
    ensures
        r == spec_mip_levels(width, height, generate_mips),
{
    if !generate_mips {
        return 1;
    }
    let m = if width > height { width } else { height };
    if m == 0 {
        return 0;
    }
    let mut x: u32 = m;
    let mut k: u32 = 0;
    while x > 1
        invariant
            x >= 1,
            k + spec_floor_log2(x as nat) == spec_floor_log2(m as nat),
        decreases x,
    {
        proof {
            lemma_floor_log2_le(m as nat);
        }
        x = x / 2;
        k = k + 1;
    }
    k
}

/// Halves a mip side, keeping sides of 1 (and 0) as they are.
pub open spec fn spec_halve(x: u32) -> u32 {
    if x > 1 { x / 2 } else { x }
}

/// The side after `k` halvings.
pub open spec fn spec_side(x: u32, k: nat) -> u32
    decreases k,
{
    if k == 0 { x } else { spec_halve(spec_side(x, (k - 1) as nat)) }
}

/// The target side of a blit from a source side: half, but at least 1.
pub open spec fn spec_blit_target(x: u32) -> u32 {
    if x > 1 { x / 2 } else { 1 }
}

/// One blit of mip generation: level `level - 1` of the given size is scaled
/// into level `level`.
#[derive(Clone, Copy, Debug, PartialEq, Eq, Structural)]
pub struct MipBlit {
    pub level: u32,
    pub src_width: i32,
    pub src_height: i32,
    pub dst_width: i32,
    pub dst_height: i32,
}

/// The blit that fills level `k + 1`.
pub open spec fn spec_mip_blit(width: u32, height: u32, k: nat) -> MipBlit {
    MipBlit {
        level: (k + 1) as u32,
        src_width: spec_side(width, k) as i32,
        src_height: spec_side(height, k) as i32,
        dst_width: spec_blit_target(spec_side(width, k)) as i32,
        dst_height: spec_blit_target(spec_side(height, k)) as i32,
    }
}

/// A side never grows when halved.
pub proof fn lemma_side_shrinks(x: u32, k: nat)
    ensures
        spec_side(x, k) <= x,
    decreases k,
{
    if k > 0 {
        lemma_side_shrinks(x, (k - 1) as nat);
    }
}

/// Plans the blits that generate mip levels `1..mip_levels` of an image of the
/// given size, each from the level before it.
pub fn plan_mip_blits(width: u32, height: u32, mip_levels: u32) -> (r: Vec<MipBlit>)
    requires
        width <= i32::MAX,
        height <= i32::MAX,
    ensures
        r@.len() == (if mip_levels > 0 { mip_levels - 1 } else { 0 }),
        forall|k: int| 0 <= k < r@.len() ==> #[trigger] r@[k] == spec_mip_blit(width, height, k as nat),
{
    let mut r: Vec<MipBlit> = Vec::new();
    let mut w: u32 = width;
    let mut h: u32 = height;
    let mut level: u32 = 1;
    while level < mip_levels
        invariant
            1 <= level,
            mip_levels > 0 ==> level <= mip_levels,
            mip_levels == 0 ==> level == 1,
            width <= i32::MAX,
            height <= i32::MAX,
            r@.len() == level - 1,
            w == spec_side(width, (level - 1) as nat),
            h == spec_side(height, (level - 1) as nat),
            forall|k: int| 0 <= k < r@.len() ==> #[trigger] r@[k] == spec_mip_blit(width, height, k as nat),
        decreases mip_levels - level,
    {
        proof {
            lemma_side_shrinks(width, (level - 1) as nat);
            lemma_side_shrinks(height, (level - 1) as nat);
        }
        let dst_w: i32 = if w > 1 { w as i32 / 2 } else { 1 };
        let dst_h: i32 = if h > 1 { h as i32 / 2 } else { 1 };
        r.push(MipBlit { level, src_width: w as i32, src_height: h as i32, dst_width: dst_w, dst_height: dst_h });
        if w > 1 {
            w = w / 2;
        }
        if h > 1 {
            h = h / 2;
        }
        level = level + 1;
    }
    r
}

/// Image layouts the library moves images between.
#[derive(Clone, Copy, Debug, PartialEq, Eq, Structural)]
pub enum ImageLayoutKind {
    Undefined,
    TransferSrcOptimal,
    TransferDstOptimal,
    ShaderReadOnlyOptimal,
    ColorAttachmentOptimal,
    DepthStencilAttachmentOptimal,
    PresentSrc,
}

/// Memory access kinds of a barrier.
#[derive(Clone, Copy, Debug, PartialEq, Eq, Structural)]
pub enum AccessKind {
    NoAccess,
    TransferWrite,
    TransferRead,
    ShaderRead,
}

/// Pipeline stages of a barrier.
#[derive(Clone, Copy, Debug, PartialEq, Eq, Structural)]
pub enum StageKind {
    TopOfPipe,
    Transfer,
    FragmentShader,
}

/// The barrier that moves an image from one layout to another.
#[derive(Clone, Copy, Debug, PartialEq, Eq, Structural)]
pub struct TransitionPlan {
    pub src_access: AccessKind,
    pub dst_access: AccessKind,
    pub src_stage: StageKind,
    pub dst_stage: StageKind,
}

/// Plans a layout transition. Two are supported: from undefined to transfer
/// destination (before an upload), and from transfer destination to shader
/// reading (after it); any other has no plan.
pub fn plan_layout_transition(old_layout: ImageLayoutKind, new_layout: ImageLayoutKind) -> (r: Option<TransitionPlan>)
    ensures
        r == (if old_layout == ImageLayoutKind::Undefined && new_layout == ImageLayoutKind::TransferDstOptimal {
            Some(TransitionPlan {
                src_access: AccessKind::NoAccess,
                dst_access: AccessKind::TransferWrite,
                src_stage: StageKind::TopOfPipe,
                dst_stage: StageKind::Transfer,
            })
        } else if old_layout == ImageLayoutKind::TransferDstOptimal && new_layout == ImageLayoutKind::ShaderReadOnlyOptimal {
            Some(TransitionPlan {
                src_access: AccessKind::TransferWrite,
                dst_access: AccessKind::ShaderRead,
                src_stage: StageKind::Transfer,
                dst_stage: StageKind::FragmentShader,
            })
        } else {
            None::<TransitionPlan>
        }),
{
    match (old_layout, new_layout) {
        (ImageLayoutKind::Undefined, ImageLayoutKind::TransferDstOptimal) => Some(TransitionPlan {
            src_access: AccessKind::NoAccess,
            dst_access: AccessKind::TransferWrite,
            src_stage: StageKind::TopOfPipe,
            dst_stage: StageKind::Transfer,
        }),
        (ImageLayoutKind::TransferDstOptimal, ImageLayoutKind::ShaderReadOnlyOptimal) => Some(TransitionPlan {
            src_access: AccessKind::TransferWrite,
            dst_access: AccessKind::ShaderRead,
            src_stage: StageKind::Transfer,
            dst_stage: StageKind::FragmentShader,
        }),
        _ => None,
    }
}

/// One barrier of mip generation: mip level `level` moves from `old_layout`
/// to `new_layout`, with the given accesses and stages.
#[derive(Clone, Copy, Debug, PartialEq, Eq, Structural)]
pub struct MipBarrier {
    pub level: u32,
    pub old_layout: ImageLayoutKind,
    pub new_layout: ImageLayoutKind,
    pub src_access: AccessKind,
    pub dst_access: AccessKind,
    pub src_stage: StageKind,
    pub dst_stage: StageKind,
}

/// Before the blit out of level `k`: the level turns from transfer destination
/// into transfer source, its writes made visible to the blit's reads.
pub open spec fn spec_barrier_to_source(k: nat) -> MipBarrier {
    MipBarrier {
        level: k as u32,
        old_layout: ImageLayoutKind::TransferDstOptimal,
        new_layout: ImageLayoutKind::TransferSrcOptimal,
        src_access: AccessKind::TransferWrite,
        dst_access: AccessKind::TransferRead,
        src_stage: StageKind::Transfer,
        dst_stage: StageKind::Transfer,
    }
}

/// After the blit out of level `k`: the level turns from transfer source into
/// shader reading.
pub open spec fn spec_barrier_source_to_read(k: nat) -> MipBarrier {
    MipBarrier {
        level: k as u32,
        old_layout: ImageLayoutKind::TransferSrcOptimal,
        new_layout: ImageLayoutKind::ShaderReadOnlyOptimal,
        src_access: AccessKind::TransferRead,
        dst_access: AccessKind::ShaderRead,
        src_stage: StageKind::Transfer,
        dst_stage: StageKind::FragmentShader,
    }
}

/// The last level, which no blit reads: from transfer destination straight
/// into shader reading.
pub open spec fn spec_barrier_last(k: nat) -> MipBarrier {
    MipBarrier {
        level: k as u32,
        old_layout: ImageLayoutKind::TransferDstOptimal,
        new_layout: ImageLayoutKind::ShaderReadOnlyOptimal,
        src_access: AccessKind::TransferWrite,
        dst_access: AccessKind::ShaderRead,
        src_stage: StageKind::Transfer,
        dst_stage: StageKind::FragmentShader,
    }
}

/// Plans the barriers of mip generation for an image of `mip_levels` levels,
/// all in transfer destination layout: for each level `k` below the last, the
/// barrier before the blit out of it (at `2k`) and the one after it (at
/// `2k + 1`); then the barrier of the last level. `2 * mip_levels - 1` in all.
pub fn plan_mip_barriers(mip_levels: u32) -> (r: Vec<MipBarrier>)
    requires
        mip_levels >= 1,
    ensures
        r@.len() == 2 * mip_levels - 1,
        forall|k: int| 0 <= k < mip_levels - 1 ==> #[trigger] r@[2 * k] == spec_barrier_to_source(k as nat)
            && r@[2 * k + 1] == spec_barrier_source_to_read(k as nat),
        r@[2 * mip_levels - 2] == spec_barrier_last((mip_levels - 1) as nat),
{
    let mut r: Vec<MipBarrier> = Vec::new();
    let mut level: u32 = 0;
    while level < mip_levels - 1
        invariant
            mip_levels >= 1,
            level <= mip_levels - 1,
            r@.len() == 2 * level,
            forall|k: int| 0 <= k < level ==> #[trigger] r@[2 * k] == spec_barrier_to_source(k as nat)
                && r@[2 * k + 1] == spec_barrier_source_to_read(k as nat),
        decreases mip_levels - 1 - level,
    {
        let ghost before = r@;
        r.push(MipBarrier {
            level,
            old_layout: ImageLayoutKind::TransferDstOptimal,
            new_layout: ImageLayoutKind::TransferSrcOptimal,
            src_access: AccessKind::TransferWrite,
            dst_access: AccessKind::TransferRead,
            src_stage: StageKind::Transfer,
            dst_stage: StageKind::Transfer,
        });
        r.push(MipBarrier {
            level,
            old_layout: ImageLayoutKind::TransferSrcOptimal,
            new_layout: ImageLayoutKind::ShaderReadOnlyOptimal,
            src_access: AccessKind::TransferRead,
            dst_access: AccessKind::ShaderRead,
            src_stage: StageKind::Transfer,
            dst_stage: StageKind::FragmentShader,
        });
        proof {
            assert forall|k: int| 0 <= k < level + 1 implies #[trigger] r@[2 * k] == spec_barrier_to_source(k as nat)
                && r@[2 * k + 1] == spec_barrier_source_to_read(k as nat) by {
                if k < level {
                    assert(r@[2 * k] == before[2 * k] && r@[2 * k + 1] == before[2 * k + 1]);
                }
            }
        }
        level = level + 1;
    }
    r.push(MipBarrier {
        level: mip_levels - 1,
        old_layout: ImageLayoutKind::TransferDstOptimal,
        new_layout: ImageLayoutKind::ShaderReadOnlyOptimal,
        src_access: AccessKind::TransferWrite,
        dst_access: AccessKind::ShaderRead,
        src_stage: StageKind::Transfer,
        dst_stage: StageKind::FragmentShader,
    });
    r
}

/// Whether images of a format with these optimal tiling features can be
/// sampled with linear filtering.
pub fn supports_linear_filtering(optimal_tiling_features: u32) -> (r: bool)
    ensures
        r == contains(optimal_tiling_features, 0x1000),
{
    let bits = format_feature_bits();
    optimal_tiling_features & bits.sampled_image_filter_linear == bits.sampled_image_filter_linear
}

/// The depth formats tried, in order of preference (raw values):
/// 32-bit float depth with stencil, then 24-bit depth with stencil.
pub fn depth_format_candidates() -> (r: Vec<i32>)
    ensures
        r@ == seq![130i32, 129i32],
{
    let values = format_values();
    let mut r: Vec<i32> = Vec::new();
    r.push(values.d32_sfloat_s8_uint);
    r.push(values.d24_unorm_s8_uint);
    r
}

/// Picks the depth format of depth attachments: the first candidate whose
/// optimal tiling features allow depth-stencil attachments. `optimal_features[i]`
/// holds the optimal tiling features of candidate `i`. Fails with
/// `NotSupportedDevice` when no candidate qualifies.
pub fn depth_attachment_format(candidates: &[i32], optimal_features: &[u32]) -> (r: Result<i32, GraphicsError>)
    requires
        optimal_features@.len() >= candidates@.len(),
    ensures
        r matches Ok(f) ==> exists|i: int| 0 <= i < candidates@.len() && candidates@[i] == f
            && contains(optimal_features@[i], 0x200)
            && forall|j: int| 0 <= j < i ==> !contains(#[trigger] optimal_features@[j], 0x200),
        r matches Err(e) ==> e == GraphicsError::NotSupportedDevice
            && forall|j: int| 0 <= j < candidates@.len() ==> !contains(#[trigger] optimal_features@[j], 0x200),
{
    let bits = format_feature_bits();
    let wanted = bits.depth_stencil_attachment;
    let mut i: usize = 0;
    while i < candidates.len()
        invariant
            i <= candidates@.len(),
            optimal_features@.len() >= candidates@.len(),
            wanted == 0x200,
            forall|j: int| 0 <= j < i ==> !contains(#[trigger] optimal_features@[j], 0x200),
        decreases candidates@.len() - i,
    {
        if optimal_features[i] & wanted == wanted {
            return Ok(candidates[i]);
        }
        i = i + 1;
    }
    Err(GraphicsError::NotSupportedDevice)
}

} // verus!
