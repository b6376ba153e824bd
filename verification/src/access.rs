//! Memory access masks used in pipeline barriers.

use vstd::prelude::*;

verus! {

/// Set of memory access kinds, one bit per kind.
///
/// The named bits live as `u32` constants on the type; a mask is built with
/// [`AccessFlags::from_bits`] from their bitwise-or.
#[derive(Clone, Copy, Debug, PartialEq, Eq, Structural, Hash)]
pub struct AccessFlags {
    pub bits: u32,
}

impl AccessFlags {
    pub const INDIRECT_COMMAND_READ: u32 = 0x0000_0001;

    pub const INDEX_READ: u32 = 0x0000_0002;

    pub const VERTEX_ATTRIBUTE_READ: u32 = 0x0000_0004;

    pub const UNIFORM_READ: u32 = 0x0000_0008;

    pub const INPUT_ATTACHMENT_READ: u32 = 0x0000_0010;

    pub const SHADER_READ: u32 = 0x0000_0020;

    pub const SHADER_WRITE: u32 = 0x0000_0040;

    pub const COLOR_ATTACHMENT_READ: u32 = 0x0000_0080;

    pub const COLOR_ATTACHMENT_WRITE: u32 = 0x0000_0100;

    pub const DEPTH_STENCIL_ATTACHMENT_READ: u32 = 0x0000_0200;

    pub const DEPTH_STENCIL_ATTACHMENT_WRITE: u32 = 0x0000_0400;

    pub const TRANSFER_READ: u32 = 0x0000_0800;

    pub const TRANSFER_WRITE: u32 = 0x0000_1000;

    pub const HOST_READ: u32 = 0x0000_2000;

    pub const HOST_WRITE: u32 = 0x0000_4000;

    pub const MEMORY_READ: u32 = 0x0000_8000;

    pub const MEMORY_WRITE: u32 = 0x0001_0000;

    /// Mask with exactly the given bits set.
    pub fn from_bits(bits: u32) -> (r: AccessFlags)
        ensures
            r.bits == bits,
    {
        AccessFlags { bits }
    }

    /// Empty access mask.
    pub fn empty() -> (r: AccessFlags)
        ensures
            r.bits == 0,
    {
        AccessFlags { bits: 0 }
    }

    /// True when no bit is set.
    pub fn is_empty(self) -> (r: bool)
        ensures
            r == (self.bits == 0),
    {
        self.bits == 0
    }

    /// Union of the two masks.
    pub fn union(self, other: AccessFlags) -> (r: AccessFlags)
        ensures
            r.bits == self.bits | other.bits,
    {
        AccessFlags { bits: self.bits | other.bits }
    }

    /// True when every bit of `other` is set in `self`.
    pub fn contains(self, other: AccessFlags) -> (r: bool)
        ensures
            r == (self.bits & other.bits == other.bits),
    {
        self.bits & other.bits == other.bits
    }

    /// True when the two masks share a bit.
    pub fn intersects(self, other: AccessFlags) -> (r: bool)
        ensures
            r == (self.bits & other.bits != 0),
    {
        self.bits & other.bits != 0
    }
}

} // verus!
