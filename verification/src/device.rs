//! The requests a device turns into driver calls.
use vstd::prelude::*;
use vstd::std_specs::ops::BitAndSpec;
use crate::bitflags::{BufferFlags, lemma_ops_bits};

verus! {

/// A buffer to create: its byte size and usage.
#[derive(Clone, Copy, Debug, PartialEq, Eq, Structural)]
pub struct BufferRequest {
    pub size: u64,
    pub uniform: bool,
    pub transfer: bool,
    pub enable_sync: bool,
}

/// Turns a request for a buffer of `len` elements of type `T` into a byte
/// size and the usages that `flags` select (uniform, transfer, synced).
pub fn buffer_request<T>(len: u64, flags: BufferFlags) -> (r: BufferRequest)
    requires
        len * vstd::layout::size_of::<T>() <= u64::MAX,
    ensures
        r.size == len * vstd::layout::size_of::<T>(),
        r.uniform == (flags@ & 0b001 != 0),
        r.transfer == (flags@ & 0b010 != 0),
        r.enable_sync == (flags@ & 0b100 != 0),
{
    let elem = core::mem::size_of::<T>() as u64;
    let size = len * elem;
    let u = BufferFlags::uniform();
    let t = BufferFlags::transfer();
    let s = BufferFlags::synced();
    let uf = flags & u;
    let tf = flags & t;
    let sf = flags & s;
    proof {
        lemma_ops_bits(flags, u);
        lemma_ops_bits(flags, t);
        lemma_ops_bits(flags, s);
    }
    BufferRequest { size, uniform: !uf.is_none(), transfer: !tf.is_none(), enable_sync: !sf.is_none() }
}

} // verus!
