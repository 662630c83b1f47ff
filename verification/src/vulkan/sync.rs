//! Frame synchronisation state: which semaphores and fence of the frame ring
//! are current.
use vstd::prelude::*;

verus! {

/// The state of the frame ring.
///
/// A synchronised ring has `barrier_count` slots, one per presentable image,
/// each with an image, a render and a transfer semaphore; two fences alternate
/// between odd and even frames. An unsynchronised state has no slots.
#[derive(Clone, Copy, Debug, PartialEq, Eq, Structural)]
pub struct FrameSync {
    /// Number of semaphore slots (0: no synchronisation).
    pub barrier_count: usize,
    /// Slot of the frame in flight.
    pub current_barrier_index: usize,
    /// Whether the frame in flight is odd.
    pub is_odd_frame: bool,
    /// Swapchain image acquired for the frame in flight.
    pub image_index: u32,
}

impl FrameSync {
    /// The current slot lies in the ring (and is 0 when there is none).
    pub open spec fn wf(self) -> bool {
        if self.barrier_count == 0 {
            self.current_barrier_index == 0
        } else {
            self.current_barrier_index < self.barrier_count
        }
    }

    /// The state after advancing to the next frame.
    pub open spec fn spec_flip(self) -> FrameSync {
        FrameSync {
            current_barrier_index: ((self.current_barrier_index + 1) % (self.barrier_count as int)) as usize,
            is_odd_frame: !self.is_odd_frame,
            ..self
        }
    }

    /// The state after stepping back to the previous frame.
    pub open spec fn spec_unflip(self) -> FrameSync {
        FrameSync {
            current_barrier_index: if self.current_barrier_index == 0 {
                (self.barrier_count - 1) as usize
            } else {
                (self.current_barrier_index - 1) as usize
            },
            is_odd_frame: !self.is_odd_frame,
            ..self
        }
    }

    /// The fence of the frame in flight: the first on odd frames, the second on even ones.
    pub open spec fn spec_fence_index(self) -> usize {
        if self.is_odd_frame { 0 } else { 1 }
    }

    /// A state without synchronisation objects.
    pub fn no_sync() -> (r: FrameSync)
        ensures
            r.wf(),
            r == (FrameSync { barrier_count: 0, current_barrier_index: 0, is_odd_frame: false, image_index: 0 }),
    {
        FrameSync { barrier_count: 0, current_barrier_index: 0, is_odd_frame: false, image_index: 0 }
    }

    /// A ring of `render_images` slots; the frame in flight is the last slot,
    /// marked odd, so that the first flip moves to slot 0 on an even frame.
    pub fn new(render_images: u32) -> (r: FrameSync)
        requires
            render_images > 0,
        ensures
            r.wf(),
            r == (FrameSync {
                barrier_count: render_images as usize,
                current_barrier_index: (render_images - 1) as usize,
                is_odd_frame: true,
                image_index: 0,
            }),
    {
        let n = render_images as usize;
        FrameSync { barrier_count: n, current_barrier_index: n - 1, is_odd_frame: true, image_index: 0 }
    }

    /// Advances to the next frame: the next slot of the ring, and the other parity.
    pub fn flip(&mut self)
        requires
            old(self).wf(),
            old(self).barrier_count > 0,
        ensures
            final(self).wf(),
            *final(self) == old(self).spec_flip(),
    {
        self.current_barrier_index = (self.current_barrier_index + 1) % self.barrier_count;
        self.is_odd_frame = !self.is_odd_frame;
    }

    /// Steps back to the previous frame (undoes `flip`).
    pub fn unflip(&mut self)
        requires
            old(self).wf(),
            old(self).barrier_count > 0,
        ensures
            final(self).wf(),
            *final(self) == old(self).spec_unflip(),
    {
        if self.current_barrier_index == 0 {
            self.current_barrier_index = self.barrier_count - 1;
        } else {
            self.current_barrier_index = self.current_barrier_index - 1;
        }
        self.is_odd_frame = !self.is_odd_frame;
    }

    /// Records the swapchain image acquired for the frame in flight.
    pub fn set_image_index(&mut self, image_index: u32)
        ensures
            *final(self) == (FrameSync { image_index, ..*old(self) }),
    {
        self.image_index = image_index;
    }

    /// Index of the render fence of the frame in flight.
    pub fn fence_render_index(&self) -> (r: usize)
        ensures
            r == self.spec_fence_index(),
    {
        if self.is_odd_frame { 0 } else { 1 }
    }

    /// Index of the render semaphore: the slot of the acquired image.
    pub fn semaphore_render_index(&self) -> (r: usize)
        ensures
            r == self.image_index,
    {
        self.image_index as usize
    }

    /// Index of the image-available semaphore: the slot of the frame in flight.
    pub fn semaphore_image_index(&self) -> (r: usize)
        ensures
            r == self.current_barrier_index,
    {
        self.current_barrier_index
    }

    /// Index of the transfer semaphore: the slot of the frame in flight.
    pub fn semaphore_transfer_index(&self) -> (r: usize)
        ensures
            r == self.current_barrier_index,
    {
        self.current_barrier_index
    }

    /// Whether the state holds synchronisation objects.
    pub fn is_sync(&self) -> (r: bool)
        ensures
            r == (self.barrier_count > 0),
    {
        self.barrier_count > 0
    }
}

/// Stepping back undoes advancing: `unflip` after `flip` restores the state.
pub proof fn lemma_unflip_undoes_flip(s: FrameSync)
    requires
        s.wf(),
        s.barrier_count > 0,
    ensures
        s.spec_flip().wf(),
        s.spec_flip().spec_unflip() == s,
{
    let n = s.barrier_count as int;
    let i = s.current_barrier_index as int;
    if i + 1 < n {
        vstd::arithmetic::div_mod::lemma_small_mod((i + 1) as nat, n as nat);
    } else {
        vstd::arithmetic::div_mod::lemma_mod_self_0(n);
    }
}

/// Advancing undoes stepping back: `flip` after `unflip` restores the state.
pub proof fn lemma_flip_undoes_unflip(s: FrameSync)
    requires
        s.wf(),
        s.barrier_count > 0,
    ensures
        s.spec_unflip().wf(),
        s.spec_unflip().spec_flip() == s,
{
    let n = s.barrier_count as int;
    let i = s.current_barrier_index as int;
    if i == 0 {
        vstd::arithmetic::div_mod::lemma_mod_self_0(n);
    } else {
        vstd::arithmetic::div_mod::lemma_small_mod(i as nat, n as nat);
    }
}

/// Consecutive frames use different render fences, and every frame keeps
/// the ring's size and the acquired image.
pub proof fn lemma_flip_alternates_fence(s: FrameSync)
    requires
        s.wf(),
        s.barrier_count > 0,
    ensures
        s.spec_flip().spec_fence_index() != s.spec_fence_index(),
        s.spec_flip().barrier_count == s.barrier_count,
        s.spec_flip().image_index == s.image_index,
{
}

} // verus!
