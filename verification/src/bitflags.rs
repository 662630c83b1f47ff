use vstd::prelude::*;
use vstd::std_specs::ops::{BitAndSpec, BitOrSpec, BitXorSpec};

verus! {

/// Buffer flags used to specify buffer usage.
///
/// The view of a flag set is its bit pattern.
#[derive(Clone, Copy, Debug, PartialEq, Eq, Structural)]
pub struct BufferFlags(u8);

impl View for BufferFlags {
    type V = u8;

    closed spec fn view(&self) -> u8 {
        self.0
    }
}

/// Bit of `BufferFlags::uniform`.
pub open spec fn uniform_bit() -> u8 {
    0b001
}

/// Bit of `BufferFlags::transfer`.
pub open spec fn transfer_bit() -> u8 {
    0b010
}

/// Bit of `BufferFlags::synced`.
pub open spec fn synced_bit() -> u8 {
    0b100
}

impl BufferFlags {
    /// Uniform buffers are used to store small amount of data, non indexing.
    pub fn uniform() -> (r: BufferFlags)
        ensures
            r@ == uniform_bit(),
    {
        BufferFlags(0b001)
    }

    /// Transfer buffers are used to read data from it, for example after computations.
    pub fn transfer() -> (r: BufferFlags)
        ensures
            r@ == transfer_bit(),
    {
        BufferFlags(0b010)
    }

    /// Indicates that the buffer would be synced along the frame.
    pub fn synced() -> (r: BufferFlags)
        ensures
            r@ == synced_bit(),
    {
        BufferFlags(0b100)
    }

    /// The empty flag set (the default).
    pub fn empty() -> (r: BufferFlags)
        ensures
            r@ == 0,
    {
        BufferFlags(0)
    }

    /// Returns true if all bits are zero.
    pub fn is_none(&self) -> (r: bool)
        ensures
            r == (self@ == 0),
    {
        self.0 == 0
    }

    /// Returns true if every bit of `other` is set in `self`.
    pub fn contains(&self, other: BufferFlags) -> (r: bool)
        ensures
            r == (self@ & other@ == other@),
    {
        self.0 & other.0 == other.0
    }
}

impl core::default::Default for BufferFlags {
    fn default() -> (r: Self)
        ensures
            r@ == 0,
    {
        BufferFlags(0)
    }
}

impl core::ops::BitAnd for BufferFlags {
    type Output = Self;

    fn bitand(self, rhs: Self) -> (r: Self::Output) {
        BufferFlags(self.0 & rhs.0)
    }
}

impl vstd::std_specs::ops::BitAndSpecImpl for BufferFlags {
    open spec fn obeys_bitand_spec() -> bool {
        true
    }

    open spec fn bitand_req(self, rhs: Self) -> bool {
        true
    }

    closed spec fn bitand_spec(self, rhs: Self) -> Self {
        BufferFlags(self.0 & rhs.0)
    }
}

impl core::ops::BitOr for BufferFlags {
    type Output = Self;

    fn bitor(self, rhs: Self) -> (r: Self::Output) {
        BufferFlags(self.0 | rhs.0)
    }
}

impl vstd::std_specs::ops::BitOrSpecImpl for BufferFlags {
    open spec fn obeys_bitor_spec() -> bool {
        true
    }

    open spec fn bitor_req(self, rhs: Self) -> bool {
        true
    }

    closed spec fn bitor_spec(self, rhs: Self) -> Self {
        BufferFlags(self.0 | rhs.0)
    }
}

impl core::ops::BitXor for BufferFlags {
    type Output = Self;

    fn bitxor(self, rhs: Self) -> (r: Self::Output) {
        BufferFlags(self.0 ^ rhs.0)
    }
}

impl vstd::std_specs::ops::BitXorSpecImpl for BufferFlags {
    open spec fn obeys_bitxor_spec() -> bool {
        true
    }

    open spec fn bitxor_req(self, rhs: Self) -> bool {
        true
    }

    closed spec fn bitxor_spec(self, rhs: Self) -> Self {
        BufferFlags(self.0 ^ rhs.0)
    }
}

/// The operators act on the bit patterns: `&`, `|` and `^` of two flag sets
/// have the bitwise and, or and exclusive or of their bits as bits.
pub broadcast proof fn lemma_ops_bits(a: BufferFlags, b: BufferFlags)
    ensures
        #[trigger] a.bitand_spec(b)@ == a@ & b@,
        #[trigger] a.bitor_spec(b)@ == a@ | b@,
        #[trigger] a.bitxor_spec(b)@ == a@ ^ b@,
{
}

} // verus!
