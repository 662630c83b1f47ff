//! Command submission: which queue serves each kind of work, and how a batch
//! of command buffers is submitted.
use vstd::prelude::*;
use crate::vulkan::sync::FrameSync;
use crate::vulkan::vkbits::{intersects, queue_flag_bits};

verus! {

/// Kind of work a command entry records.
#[derive(Clone, Copy, Debug, PartialEq, Eq, PartialOrd, Ord, Structural)]
pub enum CommandType {
    Graphics,
    Transfer,
    Compute,
}

/// Finds the first queue (by raw capability flags, in order) that can do any
/// of the work in `wanted`.
pub fn first_queue_with(queue_flags: &[u32], wanted: u32) -> (r: Option<usize>)
    ensures
        r matches Some(i) ==> {
            &&& i < queue_flags@.len()
            &&& intersects(queue_flags@[i as int], wanted)
            &&& forall|j: int| 0 <= j < i ==> !intersects(#[trigger] queue_flags@[j], wanted)
        },
        r is None ==> forall|j: int| 0 <= j < queue_flags@.len() ==> !intersects(#[trigger] queue_flags@[j], wanted),
{
    let mut i: usize = 0;
    while i < queue_flags.len()
        invariant
            i <= queue_flags@.len(),
            forall|j: int| 0 <= j < i ==> !intersects(#[trigger] queue_flags@[j], wanted),
        decreases queue_flags@.len() - i,
    {
        if queue_flags[i] & wanted != 0 {
            return Some(i);
        }
        i = i + 1;
    }
    None
}

/// The queue that serves each kind of work: the first queue with graphics,
/// transfer and compute capability respectively.
#[derive(Clone, Copy, Debug, PartialEq, Eq, Structural)]
pub struct QueueAssignment {
    pub graphics: Option<usize>,
    pub transfer: Option<usize>,
    pub compute: Option<usize>,
}

/// `r` is the first queue that can do `wanted`, or none when no queue can.
pub open spec fn spec_is_first_queue(queue_flags: Seq<u32>, wanted: u32, r: Option<usize>) -> bool {
    &&& r matches Some(i) ==> {
        &&& i < queue_flags.len()
        &&& intersects(queue_flags[i as int], wanted)
        &&& forall|j: int| 0 <= j < i ==> !intersects(#[trigger] queue_flags[j], wanted)
    }
    &&& r is None ==> forall|j: int| 0 <= j < queue_flags.len() ==> !intersects(#[trigger] queue_flags[j], wanted)
}

/// Assigns queues to the kinds of work, given the raw capability flags of
/// every queue of the device in order.
pub fn assign_queues(queue_flags: &[u32]) -> (r: QueueAssignment)
    ensures
        spec_is_first_queue(queue_flags@, 1, r.graphics),
        spec_is_first_queue(queue_flags@, 4, r.transfer),
        spec_is_first_queue(queue_flags@, 2, r.compute),
{
    let bits = queue_flag_bits();
    QueueAssignment {
        graphics: first_queue_with(queue_flags, bits.graphics),
        transfer: first_queue_with(queue_flags, bits.transfer),
        compute: first_queue_with(queue_flags, bits.compute),
    }
}

/// How a batch of command buffers signals completion.
#[derive(Clone, Copy, Debug, PartialEq, Eq, Structural)]
pub enum FlushSignal {
    /// Signal the transfer semaphore of this slot of the frame ring.
    Semaphore(usize),
    /// Signal a one-time fence and wait for it.
    Fence,
}

/// Picks how a submitted batch signals completion: through the frame's
/// transfer semaphore when the batch is synchronised with the frame ring,
/// otherwise through a fence that is waited on at once.
pub fn flush_signal(sync: &FrameSync) -> (r: FlushSignal)
    ensures
        r == (if sync.barrier_count > 0 {
            FlushSignal::Semaphore(sync.current_barrier_index)
        } else {
            FlushSignal::Fence
        }),
{
    if sync.is_sync() {
        FlushSignal::Semaphore(sync.semaphore_transfer_index())
    } else {
        FlushSignal::Fence
    }
}

/// The handles that are not null, in order.
pub open spec fn spec_non_null(handles: Seq<u64>) -> Seq<u64> {
    handles.filter(|h: u64| h != 0)
}

/// Keeps the command buffer handles that are not null, in order.
pub fn non_null_handles(handles: &[u64]) -> (r: Vec<u64>)
    ensures
        r@ == spec_non_null(handles@),
{
    let mut r: Vec<u64> = Vec::new();
    let mut i: usize = 0;
    while i < handles.len()
        invariant
            i <= handles@.len(),
            r@ == spec_non_null(handles@.subrange(0, i as int)),
        decreases handles@.len() - i,
    {
        proof {
            assert(handles@.subrange(0, i + 1) =~= handles@.subrange(0, i as int).push(handles@[i as int]));
            handles@.subrange(0, i as int).lemma_filter_push(handles@[i as int], |h: u64| h != 0);
        }
        if handles[i] != 0 {
            r.push(handles[i]);
        }
        i = i + 1;
    }
    assert(handles@.subrange(0, handles@.len() as int) =~= handles@);
    r
}

/// The command buffer that records a frame: the one of the acquired image.
pub fn frame_command_buffer(sync: &FrameSync, buffer_count: usize) -> (r: Option<usize>)
    ensures
        r == (if (sync.image_index as usize) < buffer_count { Some(sync.image_index as usize) } else { None::<usize> }),
{
    let n = sync.image_index as usize;
    if n < buffer_count { Some(n) } else { None }
}

} // verus!
