//! Buffers and buffer ranges bound into descriptor sets.
//!
//! A buffer is modelled by its identity and creation info; the native
//! allocation behind it is owned by the caller's device layer.

use vstd::prelude::*;

verus! {

/// Allowed usages of a buffer, one bit per usage.
#[derive(Clone, Copy, Debug, PartialEq, Eq, Structural, Hash)]
pub struct BufferUsage {
    pub bits: u32,
}

impl BufferUsage {
    pub const TRANSFER_SRC: u32 = 0x0000_0001;

    pub const TRANSFER_DST: u32 = 0x0000_0002;

    pub const UNIFORM_TEXEL: u32 = 0x0000_0004;

    pub const STORAGE_TEXEL: u32 = 0x0000_0008;

    pub const UNIFORM: u32 = 0x0000_0010;

    pub const STORAGE: u32 = 0x0000_0020;

    pub const INDEX: u32 = 0x0000_0040;

    pub const VERTEX: u32 = 0x0000_0080;

    pub const INDIRECT: u32 = 0x0000_0100;

    /// Mask with exactly the given bits set.
    pub fn from_bits(bits: u32) -> (r: BufferUsage)
        ensures
            r.bits == bits,
    {
        BufferUsage { bits }
    }

    /// Empty usage mask.
    pub fn empty() -> (r: BufferUsage)
        ensures
            r.bits == 0,
    {
        BufferUsage { bits: 0 }
    }

    /// True when the two masks share a bit.
    pub fn intersects(self, other: BufferUsage) -> (r: bool)
        ensures
            r == (self.bits & other.bits != 0),
    {
        self.bits & other.bits != 0
    }
}

/// Information a buffer is created with.
#[derive(Clone, Copy, Debug, PartialEq, Eq, Structural, Hash)]
pub struct BufferInfo {
    /// Required alignment of the buffer, as an alignment mask.
    pub align: u64,
    /// Size of the buffer in bytes.
    pub size: u64,
    /// Usages the buffer may be put to.
    pub usage: BufferUsage,
}

/// One buffer: its identity and the info it was created with.
#[derive(Clone, Copy, Debug, PartialEq, Eq, Structural, Hash)]
pub struct Buffer {
    pub id: u64,
    pub info: BufferInfo,
}

impl Buffer {
    /// Info the buffer was created with.
    pub fn info(&self) -> (r: &BufferInfo)
        ensures
            *r == self.info,
    {
        &self.info
    }
}

/// A contiguous range of one buffer: the unit bound into buffer descriptors.
#[derive(Clone, Copy, Debug, PartialEq, Eq, Structural, Hash)]
pub struct BufferRange {
    pub buffer: Buffer,
    pub offset: u64,
    pub size: u64,
}

impl BufferRange {
    /// The range covering the whole buffer.
    pub open spec fn spec_whole(buffer: Buffer) -> BufferRange {
        BufferRange { buffer, offset: 0, size: buffer.info.size }
    }

    /// The range covering the whole buffer.
    pub fn whole(buffer: Buffer) -> (r: BufferRange)
        ensures
            r == BufferRange::spec_whole(buffer),
    {
        BufferRange { offset: 0, size: buffer.info.size, buffer }
    }
}

impl core::convert::From<Buffer> for BufferRange {
    /// A buffer converts to the range covering all of it.
    fn from(buffer: Buffer) -> (r: BufferRange) {
        BufferRange::whole(buffer)
    }
}

impl vstd::std_specs::convert::FromSpecImpl<Buffer> for BufferRange {
    open spec fn obeys_from_spec() -> bool {
        true
    }

    open spec fn from_spec(buffer: Buffer) -> BufferRange {
        BufferRange::spec_whole(buffer)
    }
}

} // verus!
