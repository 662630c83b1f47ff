//! Swapchain choices: surface format, extent, image count, present mode and
//! sharing between queue families.
use vstd::prelude::*;
use crate::errors::GraphicsError;
use crate::vulkan::devices::QueueSlot;
use crate::vulkan::vkbits::{format_values, present_values, queue_flag_bits};

verus! {

/// Checks what a surface reports: it must offer at least one format and one
/// present mode, otherwise presentation is not supported.
pub fn check_swapchain_support(format_count: usize, present_mode_count: usize) -> (r: Result<(), GraphicsError>)
    ensures
        r is Ok <==> (format_count > 0 && present_mode_count > 0),
        r matches Err(e) ==> e == GraphicsError::NotSupportedPresent,
{
    if format_count == 0 || present_mode_count == 0 {
        Err(GraphicsError::NotSupportedPresent)
    } else {
        Ok(())
    }
}

/// Whether a surface format (raw format and color space) is the one the
/// swapchain uses: 8-bit BGRA in sRGB nonlinear color space.
pub open spec fn spec_wanted_surface_format(f: (i32, i32)) -> bool {
    f.0 == 44 && f.1 == 0
}

/// Picks the surface format: the first 8-bit BGRA sRGB-nonlinear one the
/// surface offers. Fails with `NotSupportedPresent` when it offers none.
pub fn choose_surface_format(formats: &[(i32, i32)]) -> (r: Result<usize, GraphicsError>)
    ensures
        r matches Ok(i) ==> i < formats@.len() && spec_wanted_surface_format(formats@[i as int])
            && forall|j: int| 0 <= j < i ==> !spec_wanted_surface_format(#[trigger] formats@[j]),
        r matches Err(e) ==> e == GraphicsError::NotSupportedPresent
            && forall|j: int| 0 <= j < formats@.len() ==> !spec_wanted_surface_format(#[trigger] formats@[j]),
{
    let fv = format_values();
    let pv = present_values();
    let mut i: usize = 0;
    while i < formats.len()
        invariant
            i <= formats@.len(),
            fv.b8g8r8a8_unorm == 44,
            pv.color_space_srgb_nonlinear == 0,
            forall|j: int| 0 <= j < i ==> !spec_wanted_surface_format(#[trigger] formats@[j]),
        decreases formats@.len() - i,
    {
        let (format, color_space) = formats[i];
        if format == fv.b8g8r8a8_unorm && color_space == pv.color_space_srgb_nonlinear {
            return Ok(i);
        }
        i = i + 1;
    }
    Err(GraphicsError::NotSupportedPresent)
}

/// Picks the swapchain extent: the surface's current extent, unless its width
/// is the "undefined" marker `u32::MAX`, in which case the framebuffer extent
/// given at initialisation (required then).
pub fn choose_extent(current: (u32, u32), framebuffer: Option<(u32, u32)>) -> (r: (u32, u32))
    requires
        current.0 == u32::MAX ==> framebuffer is Some,
    ensures
        r == (if current.0 != u32::MAX { current } else { framebuffer.unwrap() }),
{
    if current.0 != u32::MAX {
        current
    } else {
        match framebuffer {
            Some(e) => e,
            None => current,
        }
    }
}

/// Picks the number of swapchain images: the surface's maximum when it has
/// one (non-zero), otherwise its minimum.
pub fn choose_image_count(min_image_count: u32, max_image_count: u32) -> (r: u32)
    ensures
        r == (if max_image_count > 0 { max_image_count } else { min_image_count }),
{
    if max_image_count > 0 { max_image_count } else { min_image_count }
}

/// Picks the present mode: mailbox when the surface offers it, otherwise
/// immediate (raw values).
pub fn choose_present_mode(modes: &[i32]) -> (r: i32)
    ensures
        r == (if modes@.contains(1i32) { 1i32 } else { 0i32 }),
{
    let pv = present_values();
    let mut i: usize = 0;
    while i < modes.len()
        invariant
            i <= modes@.len(),
            pv.mode_mailbox == 1,
            pv.mode_immediate == 0,
            forall|j: int| 0 <= j < i ==> modes@[j] != 1,
        decreases modes@.len() - i,
    {
        if modes[i] == pv.mode_mailbox {
            return pv.mode_mailbox;
        }
        i = i + 1;
    }
    pv.mode_immediate
}

/// The queue families that use the swapchain: the family of the first
/// graphics-capable queue and that of the first queue that can present.
/// None when either is missing.
pub fn presentation_families(queues: &[QueueSlot]) -> (r: Option<[u32; 2]>)
    ensures
        r matches Some(f) ==> {
            &&& exists|i: int| 0 <= i < queues@.len() && queues@[i].flags & 1 != 0 && queues@[i].family == f[0]
                && forall|j: int| 0 <= j < i ==> #[trigger] queues@[j].flags & 1 == 0
            &&& exists|i: int| 0 <= i < queues@.len() && queues@[i].present_support && queues@[i].family == f[1]
                && forall|j: int| 0 <= j < i ==> !(#[trigger] queues@[j]).present_support
        },
        r is None ==> (forall|j: int| 0 <= j < queues@.len() ==> #[trigger] queues@[j].flags & 1 == 0)
            || (forall|j: int| 0 <= j < queues@.len() ==> !(#[trigger] queues@[j]).present_support),
{
    let g = match first_graphics_queue(queues) {
        Some(i) => i,
        None => {
            return None;
        },
    };
    let p = match first_present_queue(queues) {
        Some(k) => k,
        None => {
            return None;
        },
    };
    Some([queues[g].family, queues[p].family])
}

/// Index of the first graphics-capable queue, if any.
fn first_graphics_queue(queues: &[QueueSlot]) -> (r: Option<usize>)
    ensures
        r matches Some(i) ==> i < queues@.len() && queues@[i as int].flags & 1 != 0
            && forall|j: int| 0 <= j < i ==> #[trigger] queues@[j].flags & 1 == 0,
        r is None ==> forall|j: int| 0 <= j < queues@.len() ==> #[trigger] queues@[j].flags & 1 == 0,
{
    let bits = queue_flag_bits();
    let mut i: usize = 0;
    while i < queues.len()
        invariant
            i <= queues@.len(),
            bits.graphics == 1,
            forall|j: int| 0 <= j < i ==> #[trigger] queues@[j].flags & 1 == 0,
        decreases queues@.len() - i,
    {
        if queues[i].flags & bits.graphics != 0 {
            return Some(i);
        }
        i = i + 1;
    }
    None
}

/// Index of the first queue that can present, if any.
fn first_present_queue(queues: &[QueueSlot]) -> (r: Option<usize>)
    ensures
        r matches Some(i) ==> i < queues@.len() && queues@[i as int].present_support
            && forall|j: int| 0 <= j < i ==> !(#[trigger] queues@[j]).present_support,
        r is None ==> forall|j: int| 0 <= j < queues@.len() ==> !(#[trigger] queues@[j]).present_support,
{
    let mut k: usize = 0;
    while k < queues.len()
        invariant
            k <= queues@.len(),
            forall|j: int| 0 <= j < k ==> !(#[trigger] queues@[j]).present_support,
        decreases queues@.len() - k,
    {
        if queues[k].present_support {
            return Some(k);
        }
        k = k + 1;
    }
    None
}

/// Whether the swapchain images are shared concurrently: when the graphics
/// and the presenting family differ.
pub fn concurrent_sharing(families: [u32; 2]) -> (r: bool)
    ensures
        r == (families[0] != families[1]),
{
    families[0] != families[1]
}

} // verus!
