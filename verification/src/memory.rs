//! Memory usage hints and global memory barriers.

use vstd::prelude::*;
use crate::access::AccessFlags;

verus! {

/// Intended usage of a memory allocation, one bit per hint.
#[derive(Clone, Copy, Debug, PartialEq, Eq, Structural, Hash)]
pub struct MemoryUsage {
    pub bits: u8,
}

impl MemoryUsage {
    /// Memory will be used for data downloading; implies host access.
    pub const DOWNLOAD: u8 = 0x04;

    /// Memory will be used for data uploading; implies host access.
    pub const UPLOAD: u8 = 0x08;

    /// Memory should have fast device access.
    pub const FAST_DEVICE_ACCESS: u8 = 0x10;

    /// Memory will be released shortly.
    pub const TRANSIENT: u8 = 0x20;

    /// Mask with exactly the given bits set.
    pub fn from_bits(bits: u8) -> (r: MemoryUsage)
        ensures
            r.bits == bits,
    {
        MemoryUsage { bits }
    }

    /// Empty usage mask.
    pub fn empty() -> (r: MemoryUsage)
        ensures
            r.bits == 0,
    {
        MemoryUsage { bits: 0 }
    }

    /// True when the two masks share a bit.
    pub fn intersects(self, other: MemoryUsage) -> (r: bool)
        ensures
            r == (self.bits & other.bits != 0),
    {
        self.bits & other.bits != 0
    }
}

/// Barrier between "before" and "after" memory accesses, with no image or
/// buffer attached.
#[derive(Clone, Copy, Debug, PartialEq, Eq, Structural, Hash)]
pub struct MemoryBarrier {
    pub src: AccessFlags,
    pub dst: AccessFlags,
}

} // verus!
