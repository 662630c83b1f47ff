//! The steps of a presented frame, in order, and the synchronisation objects
//! its graphics submission uses. The caller performs each step and reports
//! back; the next step follows from the state and what the step reported.
use vstd::prelude::*;
use crate::errors::GraphicsError;
use crate::vulkan::library::{acquire_action, AcquireAction, PresentResult};
use crate::vulkan::sync::FrameSync;

verus! {

/// A step of a presented frame.
#[derive(Clone, Copy, Debug, PartialEq, Eq, Structural)]
pub enum FrameStep {
    /// Recreate the swapchain.
    RecreateSwapchain,
    /// Rebuild the render target's framebuffers for the swapchain's images.
    RefreshTarget,
    /// Wait for (and reset) the render fence of the frame in flight.
    WaitRenderFence,
    /// Advance the frame ring and acquire the next swapchain image.
    AcquireImage,
    /// Record the compute objects and submit them; the submission signals
    /// the transfer semaphore of the frame in flight.
    SubmitCompute,
    /// Record the draws, submit them waiting on the image and transfer
    /// semaphores, and present the image.
    SubmitGraphicsAndPresent,
    /// The frame is over.
    Done,
    /// The frame is given up with this error.
    Fail(GraphicsError),
}

/// Where a frame is: the step to perform next, whether the previous
/// presentation was suboptimal, and whether an image has been acquired.
#[derive(Clone, Copy, Debug, PartialEq, Eq, Structural)]
pub struct FrameState {
    pub step: FrameStep,
    pub suboptimal: bool,
    pub acquired: bool,
}

/// The step that comes after recreating the swapchain or refreshing the
/// target: before the acquisition, a refresh (if the previous presentation
/// was suboptimal and none was done yet) and then the fence wait; after the
/// acquisition, a refresh and then the compute submission.
pub open spec fn spec_after_recreate(s: FrameState) -> FrameStep {
    if s.acquired || s.suboptimal { FrameStep::RefreshTarget } else { FrameStep::WaitRenderFence }
}

/// The next state of a frame after its current step; `acquire_outcome` is
/// what the acquisition reported (`None` for success, otherwise the raw result
/// code) and is only read after `AcquireImage`.
pub open spec fn spec_advance_frame(s: FrameState, acquire_outcome: Option<i32>) -> FrameState {
    match s.step {
        FrameStep::RecreateSwapchain => FrameState { step: spec_after_recreate(s), ..s },
        FrameStep::RefreshTarget => FrameState {
            step: if s.acquired { FrameStep::SubmitCompute } else { FrameStep::WaitRenderFence },
            ..s
        },
        FrameStep::WaitRenderFence => FrameState { step: FrameStep::AcquireImage, ..s },
        FrameStep::AcquireImage => match acquire_outcome {
            None => FrameState { step: FrameStep::SubmitCompute, acquired: true, ..s },
            Some(code) => if code == -1000001004i32 {
                FrameState { step: FrameStep::RecreateSwapchain, acquired: true, ..s }
            } else {
                FrameState { step: FrameStep::Fail(GraphicsError::RenderingError), ..s }
            },
        },
        FrameStep::SubmitCompute => FrameState { step: FrameStep::SubmitGraphicsAndPresent, ..s },
        FrameStep::SubmitGraphicsAndPresent => FrameState { step: FrameStep::Done, ..s },
        FrameStep::Done => s,
        FrameStep::Fail(_) => s,
    }
}

/// Whether nothing is submitted before an image is acquired.
pub open spec fn spec_submits_after_acquire(s: FrameState) -> bool {
    (s.step == FrameStep::SubmitCompute || s.step == FrameStep::SubmitGraphicsAndPresent || s.step == FrameStep::Done)
        ==> s.acquired
}

/// The first state of a frame, given what the last presentation reported:
/// an out-of-date swapchain is recreated first, a suboptimal one has the
/// render target refreshed, and the frame then waits for its render fence.
pub fn start_frame(last: &PresentResult) -> (r: FrameState)
    ensures
        r.suboptimal == last.suboptimal,
        !r.acquired,
        r.step == (if last.out_of_date {
            FrameStep::RecreateSwapchain
        } else if last.suboptimal {
            FrameStep::RefreshTarget
        } else {
            FrameStep::WaitRenderFence
        }),
        spec_submits_after_acquire(r),
{
    let (recreate, refresh) = last.frame_start_actions();
    let step = if recreate {
        FrameStep::RecreateSwapchain
    } else if refresh {
        FrameStep::RefreshTarget
    } else {
        FrameStep::WaitRenderFence
    };
    FrameState { step, suboptimal: refresh, acquired: false }
}

/// Advances a frame past its current step.
pub fn advance_frame(s: FrameState, acquire_outcome: Option<i32>) -> (r: FrameState)
    ensures
        r == spec_advance_frame(s, acquire_outcome),
{
    match s.step {
        FrameStep::RecreateSwapchain => {
            let step = if s.acquired || s.suboptimal { FrameStep::RefreshTarget } else { FrameStep::WaitRenderFence };
            FrameState { step, ..s }
        },
        FrameStep::RefreshTarget => {
            let step = if s.acquired { FrameStep::SubmitCompute } else { FrameStep::WaitRenderFence };
            FrameState { step, ..s }
        },
        FrameStep::WaitRenderFence => FrameState { step: FrameStep::AcquireImage, ..s },
        FrameStep::AcquireImage => match acquire_action(acquire_outcome) {
            AcquireAction::Proceed => FrameState { step: FrameStep::SubmitCompute, acquired: true, ..s },
            AcquireAction::Recreate => FrameState { step: FrameStep::RecreateSwapchain, acquired: true, ..s },
            AcquireAction::Fail(e) => FrameState { step: FrameStep::Fail(e), ..s },
        },
        FrameStep::SubmitCompute => FrameState { step: FrameStep::SubmitGraphicsAndPresent, ..s },
        FrameStep::SubmitGraphicsAndPresent => FrameState { step: FrameStep::Done, ..s },
        FrameStep::Done => s,
        FrameStep::Fail(_) => s,
    }
}

/// Nothing is submitted before the frame's image is acquired: every step
/// keeps compute and graphics submissions behind a successful acquisition
/// (or one after which the swapchain was recreated).
pub proof fn lemma_submits_after_acquire(s: FrameState, acquire_outcome: Option<i32>)
    requires
        spec_submits_after_acquire(s),
    ensures
        spec_submits_after_acquire(spec_advance_frame(s, acquire_outcome)),
{
}

/// A frame that waits for its fence and acquires its image on the first try
/// then submits compute, submits graphics and presents, in that order.
pub proof fn lemma_plain_frame_order(s0: FrameState)
    requires
        s0.step == FrameStep::WaitRenderFence,
    ensures
        ({
            let s1 = spec_advance_frame(s0, None);
            let s2 = spec_advance_frame(s1, None);
            let s3 = spec_advance_frame(s2, None);
            let s4 = spec_advance_frame(s3, None);
            &&& s1.step == FrameStep::AcquireImage
            &&& s2.step == FrameStep::SubmitCompute && s2.acquired
            &&& s3.step == FrameStep::SubmitGraphicsAndPresent
            &&& s4.step == FrameStep::Done
        }),
{
}

/// The synchronisation objects of the graphics submission and presentation,
/// as slots of the frame ring.
#[derive(Clone, Copy, Debug, PartialEq, Eq, Structural)]
pub struct GraphicsSubmission {
    /// Image-available semaphore waited on (slot of the frame in flight).
    pub wait_image: usize,
    /// Transfer semaphore waited on, signalled by the compute submission
    /// (slot of the frame in flight).
    pub wait_transfer: usize,
    /// Render semaphore signalled, and waited on by the presentation
    /// (slot of the acquired image).
    pub signal_render: usize,
    /// Render fence signalled (by the frame's parity).
    pub fence: usize,
}

/// The graphics submission of the frame in flight waits on its image and
/// transfer semaphores, signals the render semaphore of the acquired image
/// and the render fence of its parity.
pub fn graphics_submission(sync: &FrameSync) -> (r: GraphicsSubmission)
    ensures
        r.wait_image == sync.current_barrier_index,
        r.wait_transfer == sync.current_barrier_index,
        r.signal_render == sync.image_index,
        r.fence == sync.spec_fence_index(),
{
    GraphicsSubmission {
        wait_image: sync.semaphore_image_index(),
        wait_transfer: sync.semaphore_transfer_index(),
        signal_render: sync.semaphore_render_index(),
        fence: sync.fence_render_index(),
    }
}

} // verus!
