//! Pipeline stage masks used in barriers.

use vstd::prelude::*;

verus! {

/// Set of pipeline stages, one bit per stage.
#[derive(Clone, Copy, Debug, PartialEq, Eq, Structural, Hash)]
pub struct PipelineStageFlags {
    pub bits: u32,
}

impl PipelineStageFlags {
    pub const TOP_OF_PIPE: u32 = 0x0000_0001;

    pub const DRAW_INDIRECT: u32 = 0x0000_0002;

    pub const VERTEX_INPUT: u32 = 0x0000_0004;

    pub const VERTEX_SHADER: u32 = 0x0000_0008;

    pub const EARLY_FRAGMENT_TESTS: u32 = 0x0000_0100;

    pub const FRAGMENT_SHADER: u32 = 0x0000_0080;

    pub const LATE_FRAGMENT_TESTS: u32 = 0x0000_0200;

    pub const COLOR_ATTACHMENT_OUTPUT: u32 = 0x0000_0400;

    pub const COMPUTE_SHADER: u32 = 0x0000_0800;

    pub const TRANSFER: u32 = 0x0000_1000;

    pub const BOTTOM_OF_PIPE: u32 = 0x0000_2000;

    pub const HOST: u32 = 0x0000_4000;

    pub const ALL_GRAPHICS: u32 = 0x0000_8000;

    pub const ALL_COMMANDS: u32 = 0x0001_0000;

    /// Mask with exactly the given bits set.
    pub fn from_bits(bits: u32) -> (r: PipelineStageFlags)
        ensures
            r.bits == bits,
    {
        PipelineStageFlags { bits }
    }

    /// Empty stage mask.
    pub fn empty() -> (r: PipelineStageFlags)
        ensures
            r.bits == 0,
    {
        PipelineStageFlags { bits: 0 }
    }

    /// Union of the two masks.
    pub fn union(self, other: PipelineStageFlags) -> (r: PipelineStageFlags)
        ensures
            r.bits == self.bits | other.bits,
    {
        PipelineStageFlags { bits: self.bits | other.bits }
    }

    /// True when the two masks share a bit.
    pub fn intersects(self, other: PipelineStageFlags) -> (r: bool)
        ensures
            r == (self.bits & other.bits != 0),
    {
        self.bits & other.bits != 0
    }
}

} // verus!
