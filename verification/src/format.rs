//! Texel formats and the image aspects they carry.

use vstd::prelude::*;

verus! {

/// Image aspects a format or a view selects: color, depth, stencil.
#[derive(Clone, Copy, Debug, PartialEq, Eq, Structural, Hash)]
pub struct AspectFlags {
    pub bits: u32,
}

impl AspectFlags {
    pub const COLOR: u32 = 0x1;

    pub const DEPTH: u32 = 0x2;

    pub const STENCIL: u32 = 0x4;

    /// Mask with exactly the given bits set.
    pub fn from_bits(bits: u32) -> (r: AspectFlags)
        ensures
            r.bits == bits,
    {
        AspectFlags { bits }
    }

    /// Empty aspect mask.
    pub fn empty() -> (r: AspectFlags)
        ensures
            r.bits == 0,
    {
        AspectFlags { bits: 0 }
    }

    /// Union of the two masks.
    pub fn union(self, other: AspectFlags) -> (r: AspectFlags)
        ensures
            r.bits == self.bits | other.bits,
    {
        AspectFlags { bits: self.bits | other.bits }
    }

    /// True when the two masks share a bit.
    pub fn intersects(self, other: AspectFlags) -> (r: bool)
        ensures
            r == (self.bits & other.bits != 0),
    {
        self.bits & other.bits != 0
    }
}

/// Texel format of an image or a surface.
#[derive(Clone, Copy, Debug, PartialEq, Eq, Structural, Hash)]
pub enum Format {
    R8Unorm,
    RG8Unorm,
    RGB8Unorm,
    RGBA8Unorm,
    RGBA8Srgb,
    BGR8Unorm,
    BGRA8Unorm,
    BGRA8Srgb,
    R16Uint,
    R32Uint,
    D16Unorm,
    D32Sfloat,
    S8Uint,
    D16UnormS8Uint,
    D24UnormS8Uint,
    D32SfloatS8Uint,
}

impl Format {
    /// True when the format carries a depth aspect.
    pub open spec fn spec_is_depth(self) -> bool {
        matches!(
            self,
            Format::D16Unorm
            | Format::D32Sfloat
            | Format::D16UnormS8Uint
            | Format::D24UnormS8Uint
            | Format::D32SfloatS8Uint,
        )
    }

    /// True when the format carries a stencil aspect.
    pub open spec fn spec_is_stencil(self) -> bool {
        matches!(
            self,
            Format::S8Uint | Format::D16UnormS8Uint | Format::D24UnormS8Uint
            | Format::D32SfloatS8Uint,
        )
    }

    /// True when the format is a pure color format.
    pub open spec fn spec_is_color(self) -> bool {
        !self.spec_is_depth() && !self.spec_is_stencil()
    }

    /// Aspect bits of the format: color, or its depth/stencil parts.
    pub open spec fn spec_aspect_bits(self) -> u32 {
        if self.spec_is_color() {
            AspectFlags::COLOR
        } else if self.spec_is_depth() && self.spec_is_stencil() {
            AspectFlags::DEPTH | AspectFlags::STENCIL
        } else if self.spec_is_depth() {
            AspectFlags::DEPTH
        } else {
            AspectFlags::STENCIL
        }
    }

    /// True when the format carries a depth aspect.
    pub fn is_depth(self) -> (r: bool)
        ensures
            r == self.spec_is_depth(),
    {
        matches!(
            self,
            Format::D16Unorm
            | Format::D32Sfloat
            | Format::D16UnormS8Uint
            | Format::D24UnormS8Uint
            | Format::D32SfloatS8Uint,
        )
    }

    /// True when the format carries a stencil aspect.
    pub fn is_stencil(self) -> (r: bool)
        ensures
            r == self.spec_is_stencil(),
    {
        matches!(
            self,
            Format::S8Uint | Format::D16UnormS8Uint | Format::D24UnormS8Uint
            | Format::D32SfloatS8Uint,
        )
    }

    /// Aspects a view of this format selects.
    pub fn aspect_flags(self) -> (r: AspectFlags)
        ensures
            r.bits == self.spec_aspect_bits(),
    {
        if self.is_depth() {
            if self.is_stencil() {
                AspectFlags::from_bits(AspectFlags::DEPTH | AspectFlags::STENCIL)
            } else {
                AspectFlags::from_bits(AspectFlags::DEPTH)
            }
        } else if self.is_stencil() {
            AspectFlags::from_bits(AspectFlags::STENCIL)
        } else {
            AspectFlags::from_bits(AspectFlags::COLOR)
        }
    }
}

} // verus!
