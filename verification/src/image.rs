//! Images, their usage and layout, subresource selectors, and the
//! subresource state that drives layout-transition barriers.

use vstd::prelude::*;
use core::ops::Range;
use crate::access::AccessFlags;
use crate::encoder::{Encoder, ImageBarrierCommand};
use crate::format::{AspectFlags, Format};
use crate::queue::{Ownership, QueueId};
use crate::stage::PipelineStageFlags;
use crate::{Extent2d, Extent3d, ImageSize, Offset3d};

verus! {

/// Allowed usages of an image, one bit per usage.
#[derive(Clone, Copy, Debug, PartialEq, Eq, Structural, Hash)]
pub struct ImageUsage {
    pub bits: u32,
}

impl ImageUsage {
    /// Image can be the source of transfer operations.
    pub const TRANSFER_SRC: u32 = 0x001;

    /// Image can be the destination of transfer operations.
    pub const TRANSFER_DST: u32 = 0x002;

    /// Image can be bound as a sampled-image descriptor.
    pub const SAMPLED: u32 = 0x004;

    /// Image can be bound as a storage-image descriptor.
    pub const STORAGE: u32 = 0x008;

    /// Image can be a color attachment of a render pass.
    pub const COLOR_ATTACHMENT: u32 = 0x010;

    /// Image can be a depth-stencil attachment of a render pass.
    pub const DEPTH_STENCIL_ATTACHMENT: u32 = 0x020;

    /// Image can be an input attachment of a render pass.
    pub const INPUT_ATTACHMENT: u32 = 0x080;

    /// Mask with exactly the given bits set.
    pub fn from_bits(bits: u32) -> (r: ImageUsage)
        ensures
            r.bits == bits,
    {
        ImageUsage { bits }
    }

    /// Empty usage mask.
    pub fn empty() -> (r: ImageUsage)
        ensures
            r.bits == 0,
    {
        ImageUsage { bits: 0 }
    }

    /// Union of the two masks.
    pub fn union(self, other: ImageUsage) -> (r: ImageUsage)
        ensures
            r.bits == self.bits | other.bits,
    {
        ImageUsage { bits: self.bits | other.bits }
    }

    /// True when every bit of `other` is set in `self`.
    pub fn contains(self, other: ImageUsage) -> (r: bool)
        ensures
            r == (self.bits & other.bits == other.bits),
    {
        self.bits & other.bits == other.bits
    }

    /// True when the two masks share a bit.
    pub fn intersects(self, other: ImageUsage) -> (r: bool)
        ensures
            r == (self.bits & other.bits != 0),
    {
        self.bits & other.bits != 0
    }

    /// True when an image with this usage can be a render target, either
    /// color or depth.
    pub open spec fn spec_is_render_target(self) -> bool {
        self.bits & (ImageUsage::COLOR_ATTACHMENT | ImageUsage::DEPTH_STENCIL_ATTACHMENT) != 0
    }

    /// True when an image with this usage can be a render target, either
    /// color or depth.
    pub fn is_render_target(self) -> (r: bool)
        ensures
            r == self.spec_is_render_target(),
    {
        self.intersects(
            ImageUsage::from_bits(
                ImageUsage::COLOR_ATTACHMENT | ImageUsage::DEPTH_STENCIL_ATTACHMENT,
            ),
        )
    }

    /// True when an image with this usage can be a render target and nothing
    /// else.
    pub open spec fn spec_is_render_target_only(self) -> bool {
        self.spec_is_render_target() && self.bits & (ImageUsage::TRANSFER_SRC
            | ImageUsage::TRANSFER_DST | ImageUsage::SAMPLED | ImageUsage::STORAGE
            | ImageUsage::INPUT_ATTACHMENT) == 0
    }

    /// True when an image with this usage can be a render target and nothing
    /// else.
    pub fn is_render_target_only(self) -> (r: bool)
        ensures
            r == self.spec_is_render_target_only(),
    {
        self.is_render_target() && !self.intersects(
            ImageUsage::from_bits(
                ImageUsage::TRANSFER_SRC | ImageUsage::TRANSFER_DST | ImageUsage::SAMPLED
                    | ImageUsage::STORAGE | ImageUsage::INPUT_ATTACHMENT,
            ),
        )
    }

    /// True when no usage that mutates the image through device operations is
    /// allowed. Content can still change through memory mapping.
    pub open spec fn spec_is_read_only(self) -> bool {
        self.bits & (ImageUsage::TRANSFER_DST | ImageUsage::STORAGE
            | ImageUsage::COLOR_ATTACHMENT | ImageUsage::DEPTH_STENCIL_ATTACHMENT) == 0
    }

    /// True when no usage that mutates the image through device operations is
    /// allowed. Content can still change through memory mapping.
    pub fn is_read_only(self) -> (r: bool)
        ensures
            r == self.spec_is_read_only(),
    {
        !self.intersects(
            ImageUsage::from_bits(
                ImageUsage::TRANSFER_DST | ImageUsage::STORAGE | ImageUsage::COLOR_ATTACHMENT
                    | ImageUsage::DEPTH_STENCIL_ATTACHMENT,
            ),
        )
    }
}

/// Layout texels of an image are placed in. Operations require the image to
/// be in one of the layouts they accept; transitions are made with barriers.
#[derive(Clone, Copy, Debug, PartialEq, Eq, Structural, Hash)]
pub enum Layout {
    /// Usable with all device operations except presentation; may be slower.
    General,
    /// Usable for color attachments.
    ColorAttachmentOptimal,
    /// Usable for depth-stencil attachments.
    DepthStencilAttachmentOptimal,
    /// Usable for depth-stencil attachments without writes.
    DepthStencilReadOnlyOptimal,
    /// Usable for shader reads without writes.
    ShaderReadOnlyOptimal,
    /// Usable as the source of transfer operations.
    TransferSrcOptimal,
    /// Usable as the destination of transfer operations.
    TransferDstOptimal,
    /// Layout swapchain images are presented in.
    Present,
}

impl core::default::Default for Layout {
    /// The default layout is the fully general one.
    fn default() -> (r: Layout)
        ensures
            r == Layout::General,
    {
        Layout::General
    }
}

/// Extent of an image in one, two or three dimensions.
#[derive(Clone, Copy, Debug, PartialEq, Eq, Structural, Hash)]
pub enum ImageExtent {
    /// One dimensional extent.
    D1 { width: ImageSize },
    /// Two dimensional extent.
    D2 { width: ImageSize, height: ImageSize },
    /// Three dimensional extent.
    D3 { width: ImageSize, height: ImageSize, depth: ImageSize },
}

impl ImageExtent {
    /// The three dimensional extent this extent widens to: missing `height`
    /// or `depth` become 1.
    pub open spec fn spec_into_3d(self) -> Extent3d {
        match self {
            ImageExtent::D1 { width } => Extent3d { width, height: 1, depth: 1 },
            ImageExtent::D2 { width, height } => Extent3d { width, height, depth: 1 },
            ImageExtent::D3 { width, height, depth } => Extent3d { width, height, depth },
        }
    }

    /// The two dimensional extent this extent narrows to: a missing `height`
    /// becomes 1 and `depth` is dropped.
    pub open spec fn spec_into_2d(self) -> Extent2d {
        match self {
            ImageExtent::D1 { width } => Extent2d { width, height: 1 },
            ImageExtent::D2 { width, height } => Extent2d { width, height },
            ImageExtent::D3 { width, height, depth } => Extent2d { width, height },
        }
    }

    /// Convert this extent into a three dimensional one; missing dimensions
    /// are set to 1.
    pub fn into_3d(self) -> (r: Extent3d)
        ensures
            r == self.spec_into_3d(),
    {
        match self {
            ImageExtent::D1 { width } => Extent3d { width, height: 1, depth: 1 },
            ImageExtent::D2 { width, height } => Extent3d { width, height, depth: 1 },
            ImageExtent::D3 { width, height, depth } => Extent3d { width, height, depth },
        }
    }

    /// Convert this extent into a two dimensional one; a missing `height` is
    /// set to 1 and `depth` is ignored.
    pub fn into_2d(self) -> (r: Extent2d)
        ensures
            r == self.spec_into_2d(),
    {
        match self {
            ImageExtent::D1 { width } => Extent2d { width, height: 1 },
            ImageExtent::D2 { width, height } => Extent2d { width, height },
            ImageExtent::D3 { width, height, .. } => Extent2d { width, height },
        }
    }
}

impl core::convert::From<Extent2d> for ImageExtent {
    /// A two dimensional extent becomes a `D2` image extent.
    fn from(extent: Extent2d) -> (r: ImageExtent) {
        ImageExtent::D2 { width: extent.width, height: extent.height }
    }
}

impl vstd::std_specs::convert::FromSpecImpl<Extent2d> for ImageExtent {
    open spec fn obeys_from_spec() -> bool {
        true
    }

    open spec fn from_spec(extent: Extent2d) -> ImageExtent {
        ImageExtent::D2 { width: extent.width, height: extent.height }
    }
}

impl core::convert::From<Extent3d> for ImageExtent {
    /// A three dimensional extent becomes a `D3` image extent.
    fn from(extent: Extent3d) -> (r: ImageExtent) {
        ImageExtent::D3 { width: extent.width, height: extent.height, depth: extent.depth }
    }
}

impl vstd::std_specs::convert::FromSpecImpl<Extent3d> for ImageExtent {
    open spec fn obeys_from_spec() -> bool {
        true
    }

    open spec fn from_spec(extent: Extent3d) -> ImageExtent {
        ImageExtent::D3 { width: extent.width, height: extent.height, depth: extent.depth }
    }
}

impl core::cmp::PartialEq<Extent2d> for ImageExtent {
    /// An image extent equals a two dimensional extent when it is `D2` with
    /// the same width and height.
    fn eq(&self, rhs: &Extent2d) -> (r: bool) {
        match self {
            ImageExtent::D2 { width, height } => *width == rhs.width && *height == rhs.height,
            _ => false,
        }
    }
}

impl vstd::std_specs::cmp::PartialEqSpecImpl<Extent2d> for ImageExtent {
    open spec fn obeys_eq_spec() -> bool {
        true
    }

    open spec fn eq_spec(&self, rhs: &Extent2d) -> bool {
        self matches ImageExtent::D2 { width, height } && width == rhs.width && height
            == rhs.height
    }
}

impl core::cmp::PartialEq<Extent3d> for ImageExtent {
    /// An image extent equals a three dimensional extent when it is `D3` with
    /// the same width, height and depth.
    fn eq(&self, rhs: &Extent3d) -> (r: bool) {
        match self {
            ImageExtent::D3 { width, height, depth } => *width == rhs.width && *height
                == rhs.height && *depth == rhs.depth,
            _ => false,
        }
    }
}

impl vstd::std_specs::cmp::PartialEqSpecImpl<Extent3d> for ImageExtent {
    open spec fn obeys_eq_spec() -> bool {
        true
    }

    open spec fn eq_spec(&self, rhs: &Extent3d) -> bool {
        self matches ImageExtent::D3 { width, height, depth } && width == rhs.width && height
            == rhs.height && depth == rhs.depth
    }
}

impl core::cmp::PartialEq<ImageExtent> for Extent2d {
    /// Mirror of the `ImageExtent == Extent2d` comparison.
    fn eq(&self, rhs: &ImageExtent) -> (r: bool) {
        match rhs {
            ImageExtent::D2 { width, height } => self.width == *width && self.height == *height,
            _ => false,
        }
    }
}

impl vstd::std_specs::cmp::PartialEqSpecImpl<ImageExtent> for Extent2d {
    open spec fn obeys_eq_spec() -> bool {
        true
    }

    open spec fn eq_spec(&self, rhs: &ImageExtent) -> bool {
        rhs matches ImageExtent::D2 { width, height } && self.width == width && self.height
            == height
    }
}

impl core::cmp::PartialEq<ImageExtent> for Extent3d {
    /// Mirror of the `ImageExtent == Extent3d` comparison.
    fn eq(&self, rhs: &ImageExtent) -> (r: bool) {
        match rhs {
            ImageExtent::D3 { width, height, depth } => self.width == *width && self.height
                == *height && self.depth == *depth,
            _ => false,
        }
    }
}

impl vstd::std_specs::cmp::PartialEqSpecImpl<ImageExtent> for Extent3d {
    open spec fn obeys_eq_spec() -> bool {
        true
    }

    open spec fn eq_spec(&self, rhs: &ImageExtent) -> bool {
        rhs matches ImageExtent::D3 { width, height, depth } && self.width == width && self.height
            == height && self.depth == depth
    }
}

/// Number of samples per texel.
#[derive(Clone, Copy, Debug, PartialEq, Eq, Structural, Hash)]
pub enum Samples {
    /// 1 sample.
    Samples1,
    /// 2 samples.
    Samples2,
    /// 4 samples.
    Samples4,
    /// 8 samples.
    Samples8,
    /// 16 samples.
    Samples16,
    /// 32 samples.
    Samples32,
    /// 64 samples.
    Samples64,
}

impl core::default::Default for Samples {
    /// The default sample count is one sample per texel.
    fn default() -> (r: Samples)
        ensures
            r == Samples::Samples1,
    {
        Samples::Samples1
    }
}

/// Information an image is created with.
#[derive(Clone, Copy, Debug, PartialEq, Eq, Structural, Hash)]
pub struct ImageInfo {
    /// Dimensionality and size of those dimensions.
    pub extent: ImageExtent,
    /// Format for image texels.
    pub format: Format,
    /// Number of mip levels.
    pub levels: u32,
    /// Number of array layers.
    pub layers: u32,
    /// Number of samples per texel.
    pub samples: Samples,
    /// Usage types supported by the image.
    pub usage: ImageUsage,
}

/// One image: its identity and the info it was created with.
#[derive(Clone, Copy, Debug, PartialEq, Eq, Structural, Hash)]
pub struct Image {
    pub id: u64,
    pub info: ImageInfo,
}

impl Image {
    /// An image with the given identity and info.
    pub fn new(id: u64, info: ImageInfo) -> (r: Image)
        ensures
            r.id == id,
            r.info == info,
    {
        Image { id, info }
    }

    /// Info the image was created with.
    pub fn info(&self) -> (r: &ImageInfo)
        ensures
            *r == self.info,
    {
        &self.info
    }
}

/// Subresource range of an image: a span of mip levels and array layers of
/// some aspects. Used to create image views.
#[derive(Clone, Copy, Debug, PartialEq, Eq, Structural, Hash)]
pub struct SubresourceRange {
    pub aspect: AspectFlags,
    pub first_level: u32,
    pub level_count: u32,
    pub first_layer: u32,
    pub layer_count: u32,
}

impl SubresourceRange {
    /// A range over the given level and layer spans.
    pub fn new(aspect: AspectFlags, levels: Range<u32>, layers: Range<u32>) -> (r:
        SubresourceRange)
        requires
            levels.end >= levels.start,
            layers.end >= layers.start,
        ensures
            r.aspect == aspect,
            r.first_level == levels.start,
            r.level_count == levels.end - levels.start,
            r.first_layer == layers.start,
            r.layer_count == layers.end - layers.start,
    {
        SubresourceRange {
            aspect,
            first_level: levels.start,
            level_count: levels.end - levels.start,
            first_layer: layers.start,
            layer_count: layers.end - layers.start,
        }
    }

    /// The range covering every level and layer of an image with the given
    /// info, over all aspects of its format.
    pub fn whole(info: &ImageInfo) -> (r: SubresourceRange)
        ensures
            r.aspect.bits == info.format.spec_aspect_bits(),
            r.first_level == 0,
            r.level_count == info.levels,
            r.first_layer == 0,
            r.layer_count == info.layers,
    {
        SubresourceRange {
            aspect: info.format.aspect_flags(),
            first_level: 0,
            level_count: info.levels,
            first_layer: 0,
            layer_count: info.layers,
        }
    }

    /// A color-aspect range over the given spans.
    pub fn color(levels: Range<u32>, layers: Range<u32>) -> (r: SubresourceRange)
        requires
            levels.end >= levels.start,
            layers.end >= layers.start,
        ensures
            r.aspect.bits == AspectFlags::COLOR,
            r.first_level == levels.start,
            r.level_count == levels.end - levels.start,
            r.first_layer == layers.start,
            r.layer_count == layers.end - layers.start,
    {
        SubresourceRange::new(AspectFlags::from_bits(AspectFlags::COLOR), levels, layers)
    }

    /// A depth-aspect range over the given spans.
    pub fn depth(levels: Range<u32>, layers: Range<u32>) -> (r: SubresourceRange)
        requires
            levels.end >= levels.start,
            layers.end >= layers.start,
        ensures
            r.aspect.bits == AspectFlags::DEPTH,
            r.first_level == levels.start,
            r.level_count == levels.end - levels.start,
            r.first_layer == layers.start,
            r.layer_count == layers.end - layers.start,
    {
        SubresourceRange::new(AspectFlags::from_bits(AspectFlags::DEPTH), levels, layers)
    }

    /// A stencil-aspect range over the given spans.
    pub fn stencil(levels: Range<u32>, layers: Range<u32>) -> (r: SubresourceRange)
        requires
            levels.end >= levels.start,
            layers.end >= layers.start,
        ensures
            r.aspect.bits == AspectFlags::STENCIL,
            r.first_level == levels.start,
            r.level_count == levels.end - levels.start,
            r.first_layer == layers.start,
            r.layer_count == layers.end - layers.start,
    {
        SubresourceRange::new(AspectFlags::from_bits(AspectFlags::STENCIL), levels, layers)
    }

    /// A depth-and-stencil range over the given spans.
    pub fn depth_stencil(levels: Range<u32>, layers: Range<u32>) -> (r: SubresourceRange)
        requires
            levels.end >= levels.start,
            layers.end >= layers.start,
        ensures
            r.aspect.bits == AspectFlags::DEPTH | AspectFlags::STENCIL,
            r.first_level == levels.start,
            r.level_count == levels.end - levels.start,
            r.first_layer == layers.start,
            r.layer_count == layers.end - layers.start,
    {
        SubresourceRange::new(
            AspectFlags::from_bits(AspectFlags::DEPTH | AspectFlags::STENCIL),
            levels,
            layers,
        )
    }
}

/// Subresource layers of an image: one mip level, a span of array layers.
/// Used in image copy operations.
#[derive(Clone, Copy, Debug, PartialEq, Eq, Structural, Hash)]
pub struct SubresourceLayers {
    pub aspect: AspectFlags,
    pub level: u32,
    pub first_layer: u32,
    pub layer_count: u32,
}

impl SubresourceLayers {
    /// Layers of one level over the given layer span.
    pub fn new(aspect: AspectFlags, level: u32, layers: Range<u32>) -> (r: SubresourceLayers)
        requires
            layers.end >= layers.start,
        ensures
            r.aspect == aspect,
            r.level == level,
            r.first_layer == layers.start,
            r.layer_count == layers.end - layers.start,
    {
        SubresourceLayers {
            aspect,
            level,
            first_layer: layers.start,
            layer_count: layers.end - layers.start,
        }
    }

    /// Every layer of one level of an image with the given info, over all
    /// aspects of its format.
    pub fn all_layers(info: &ImageInfo, level: u32) -> (r: SubresourceLayers)
        requires
            level < info.levels,
        ensures
            r.aspect.bits == info.format.spec_aspect_bits(),
            r.level == level,
            r.first_layer == 0,
            r.layer_count == info.layers,
    {
        SubresourceLayers {
            aspect: info.format.aspect_flags(),
            level,
            first_layer: 0,
            layer_count: info.layers,
        }
    }

    /// Color-aspect layers of one level.
    pub fn color(level: u32, layers: Range<u32>) -> (r: SubresourceLayers)
        requires
            layers.end >= layers.start,
        ensures
            r.aspect.bits == AspectFlags::COLOR,
            r.level == level,
            r.first_layer == layers.start,
            r.layer_count == layers.end - layers.start,
    {
        SubresourceLayers::new(AspectFlags::from_bits(AspectFlags::COLOR), level, layers)
    }

    /// Depth-aspect layers of one level.
    pub fn depth(level: u32, layers: Range<u32>) -> (r: SubresourceLayers)
        requires
            layers.end >= layers.start,
        ensures
            r.aspect.bits == AspectFlags::DEPTH,
            r.level == level,
            r.first_layer == layers.start,
            r.layer_count == layers.end - layers.start,
    {
        SubresourceLayers::new(AspectFlags::from_bits(AspectFlags::DEPTH), level, layers)
    }

    /// Stencil-aspect layers of one level.
    pub fn stencil(level: u32, layers: Range<u32>) -> (r: SubresourceLayers)
        requires
            layers.end >= layers.start,
        ensures
            r.aspect.bits == AspectFlags::STENCIL,
            r.level == level,
            r.first_layer == layers.start,
            r.layer_count == layers.end - layers.start,
    {
        SubresourceLayers::new(AspectFlags::from_bits(AspectFlags::STENCIL), level, layers)
    }

    /// Depth-and-stencil layers of one level.
    pub fn depth_stencil(level: u32, layers: Range<u32>) -> (r: SubresourceLayers)
        requires
            layers.end >= layers.start,
        ensures
            r.aspect.bits == AspectFlags::DEPTH | AspectFlags::STENCIL,
            r.level == level,
            r.first_layer == layers.start,
            r.layer_count == layers.end - layers.start,
    {
        SubresourceLayers::new(
            AspectFlags::from_bits(AspectFlags::DEPTH | AspectFlags::STENCIL),
            level,
            layers,
        )
    }
}

/// One subresource of an image: one mip level of one array layer.
#[derive(Clone, Copy, Debug, PartialEq, Eq, Structural, Hash)]
pub struct Subresource {
    pub aspect: AspectFlags,
    pub level: u32,
    pub layer: u32,
}

impl Subresource {
    /// The subresource with the given coordinates.
    pub fn new(aspect: AspectFlags, level: u32, layer: u32) -> (r: Subresource)
        ensures
            r.aspect == aspect,
            r.level == level,
            r.layer == layer,
    {
        Subresource { aspect, level, layer }
    }

    /// The subresource with the given coordinates of an image with the given
    /// info, over all aspects of its format.
    pub fn from_info(info: &ImageInfo, level: u32, layer: u32) -> (r: Subresource)
        requires
            level < info.levels,
            layer < info.layers,
        ensures
            r.aspect.bits == info.format.spec_aspect_bits(),
            r.level == level,
            r.layer == layer,
    {
        Subresource { aspect: info.format.aspect_flags(), level, layer }
    }

    /// A color-aspect subresource.
    pub fn color(level: u32, layer: u32) -> (r: Subresource)
        ensures
            r.aspect.bits == AspectFlags::COLOR,
            r.level == level,
            r.layer == layer,
    {
        Subresource::new(AspectFlags::from_bits(AspectFlags::COLOR), level, layer)
    }

    /// A depth-aspect subresource.
    pub fn depth(level: u32, layer: u32) -> (r: Subresource)
        ensures
            r.aspect.bits == AspectFlags::DEPTH,
            r.level == level,
            r.layer == layer,
    {
        Subresource::new(AspectFlags::from_bits(AspectFlags::DEPTH), level, layer)
    }

    /// A stencil-aspect subresource.
    pub fn stencil(level: u32, layer: u32) -> (r: Subresource)
        ensures
            r.aspect.bits == AspectFlags::STENCIL,
            r.level == level,
            r.layer == layer,
    {
        Subresource::new(AspectFlags::from_bits(AspectFlags::STENCIL), level, layer)
    }

    /// A depth-and-stencil subresource.
    pub fn depth_stencil(level: u32, layer: u32) -> (r: Subresource)
        ensures
            r.aspect.bits == AspectFlags::DEPTH | AspectFlags::STENCIL,
            r.level == level,
            r.layer == layer,
    {
        Subresource::new(
            AspectFlags::from_bits(AspectFlags::DEPTH | AspectFlags::STENCIL),
            level,
            layer,
        )
    }
}

/// One blit operation between subresource layers of two images.
#[derive(Clone, Copy, Debug, PartialEq, Eq, Hash)]
pub struct ImageBlit {
    pub src_subresource: SubresourceLayers,
    pub src_offsets: [Offset3d; 2],
    pub dst_subresource: SubresourceLayers,
    pub dst_offsets: [Offset3d; 2],
}

/// A layout transition of a subresource range of one image.
#[derive(Clone, Copy, Debug, PartialEq, Eq, Structural, Hash)]
pub struct LayoutTransition {
    pub image: Image,
    pub old_access: AccessFlags,
    pub old_layout: Option<Layout>,
    pub new_access: AccessFlags,
    pub new_layout: Layout,
    pub range: SubresourceRange,
}

impl LayoutTransition {
    /// Transition the whole image between two known layouts.
    pub fn transition_whole(image: &Image, access: Range<AccessFlags>, layout: Range<Layout>) -> (r:
        LayoutTransition)
        ensures
            r.image == *image,
            r.old_access == access.start,
            r.new_access == access.end,
            r.old_layout == Some(layout.start),
            r.new_layout == layout.end,
            r.range.aspect.bits == image.info.format.spec_aspect_bits(),
            r.range.first_level == 0,
            r.range.level_count == image.info.levels,
            r.range.first_layer == 0,
            r.range.layer_count == image.info.layers,
    {
        LayoutTransition {
            range: SubresourceRange::whole(image.info()),
            image: *image,
            old_access: access.start,
            new_access: access.end,
            old_layout: Some(layout.start),
            new_layout: layout.end,
        }
    }

    /// Initialize the whole image into its first layout, discarding previous
    /// content.
    pub fn initialize_whole(image: &Image, access: AccessFlags, layout: Layout) -> (r:
        LayoutTransition)
        ensures
            r.image == *image,
            r.old_access.bits == 0,
            r.old_layout is None,
            r.new_access == access,
            r.new_layout == layout,
            r.range.aspect.bits == image.info.format.spec_aspect_bits(),
            r.range.first_level == 0,
            r.range.level_count == image.info.levels,
            r.range.first_layer == 0,
            r.range.layer_count == image.info.layers,
    {
        LayoutTransition {
            range: SubresourceRange::whole(image.info()),
            image: *image,
            old_access: AccessFlags::empty(),
            old_layout: None,
            new_access: access,
            new_layout: layout,
        }
    }
}

/// Barrier over a subresource range of one image, with an optional queue
/// family transfer.
#[derive(Clone, Copy, Debug, PartialEq, Eq, Hash)]
pub struct ImageMemoryBarrier {
    pub image: Image,
    pub old_access: AccessFlags,
    pub old_layout: Option<Layout>,
    pub new_access: AccessFlags,
    pub new_layout: Layout,
    pub family_transfer: Option<(u32, u32)>,
    pub range: SubresourceRange,
}

impl core::convert::From<LayoutTransition> for ImageMemoryBarrier {
    /// A plain layout transition is a barrier without a family transfer.
    fn from(value: LayoutTransition) -> (r: ImageMemoryBarrier) {
        ImageMemoryBarrier {
            image: value.image,
            old_access: value.old_access,
            old_layout: value.old_layout,
            new_access: value.new_access,
            new_layout: value.new_layout,
            family_transfer: None,
            range: value.range,
        }
    }
}

impl vstd::std_specs::convert::FromSpecImpl<LayoutTransition> for ImageMemoryBarrier {
    open spec fn obeys_from_spec() -> bool {
        true
    }

    open spec fn from_spec(value: LayoutTransition) -> ImageMemoryBarrier {
        ImageMemoryBarrier {
            image: value.image,
            old_access: value.old_access,
            old_layout: value.old_layout,
            new_access: value.new_access,
            new_layout: value.new_layout,
            family_transfer: None,
            range: value.range,
        }
    }
}

/// A subresource range together with the image it belongs to.
#[derive(Clone, Copy, Debug, PartialEq, Eq, Structural, Hash)]
pub struct ImageSubresourceRange {
    pub image: Image,
    pub range: SubresourceRange,
}

/// An image region with the access, stages, layout and ownership it was last
/// left in by earlier device operations.
#[derive(Clone, Copy, Debug, PartialEq, Eq, Structural, Hash)]
pub struct ImageSubresourceState {
    pub subresource: ImageSubresourceRange,
    pub access: AccessFlags,
    pub stages: PipelineStageFlags,
    pub layout: Option<Layout>,
    pub family: Ownership,
}

impl ImageSubresourceState {
    /// The barrier that moving this state to the given access, stages and
    /// layout emits.
    pub open spec fn spec_barrier_to(
        self,
        access: AccessFlags,
        stages: PipelineStageFlags,
        layout: Layout,
    ) -> ImageBarrierCommand {
        ImageBarrierCommand {
            src_stages: self.stages,
            dst_stages: stages,
            barrier: ImageMemoryBarrier {
                image: self.subresource.image,
                old_access: self.access,
                new_access: access,
                old_layout: self.layout,
                new_layout: layout,
                family_transfer: match self.family {
                    Ownership::Transition { from, to } => Some((from, to)),
                    _ => None,
                },
                range: self.subresource.range,
            },
        }
    }

    /// Record a barrier moving the region to the given access, stages and
    /// layout on the given queue, preserving its previous content, and
    /// remember the new state.
    ///
    /// The queue must belong to the family that owns the region, or complete
    /// a pending transfer to its family.
    pub fn access(
        &mut self,
        access: AccessFlags,
        stages: PipelineStageFlags,
        layout: Layout,
        queue: QueueId,
        encoder: &mut Encoder,
    )
        requires
            match old(self).family {
                Ownership::NotOwned => true,
                Ownership::Owned { family } => family == queue.family,
                Ownership::Transition { from, to } => to == queue.family,
            },
        ensures
            final(self).subresource == old(self).subresource,
            final(self).family == old(self).family,
            final(self).access == access,
            final(self).stages == stages,
            final(self).layout == Some(layout),
            final(encoder).image_barriers@ == old(encoder).image_barriers@.push(
                old(self).spec_barrier_to(access, stages, layout),
            ),
            final(encoder).buffer_updates@ == old(encoder).buffer_updates@,
    {
        let family_transfer: Option<(u32, u32)> = match self.family {
            Ownership::NotOwned => None,
            Ownership::Owned { family } => None,
            Ownership::Transition { from, to } => Some((from, to)),
        };
        encoder.image_barrier(
            self.stages,
            stages,
            ImageMemoryBarrier {
                image: self.subresource.image,
                old_access: self.access,
                new_access: access,
                old_layout: self.layout,
                new_layout: layout,
                family_transfer,
                range: self.subresource.range,
            },
        );
        self.stages = stages;
        self.access = access;
        self.layout = Some(layout);
    }

    /// Record a barrier moving the region to the given access, stages and
    /// layout on the given queue, discarding its previous content, and
    /// remember the new state; the queue's family takes ownership.
    ///
    /// Returns the subresource the barrier covers.
    pub fn overwrite(
        &mut self,
        access: AccessFlags,
        stages: PipelineStageFlags,
        layout: Layout,
        queue: QueueId,
        encoder: &mut Encoder,
    ) -> (r: ImageSubresourceRange)
        ensures
            r == old(self).subresource,
            final(self).subresource == old(self).subresource,
            final(self).family == (Ownership::Owned { family: queue.family }),
            final(self).access == access,
            final(self).stages == stages,
            final(self).layout == Some(layout),
            final(encoder).image_barriers@ == old(encoder).image_barriers@.push(
                ImageBarrierCommand {
                    src_stages: old(self).stages,
                    dst_stages: stages,
                    barrier: ImageMemoryBarrier {
                        image: old(self).subresource.image,
                        old_access: AccessFlags { bits: 0 },
                        new_access: access,
                        old_layout: None,
                        new_layout: layout,
                        family_transfer: None,
                        range: old(self).subresource.range,
                    },
                },
            ),
            final(encoder).buffer_updates@ == old(encoder).buffer_updates@,
    {
        encoder.image_barrier(
            self.stages,
            stages,
            ImageMemoryBarrier {
                image: self.subresource.image,
                old_access: AccessFlags::empty(),
                new_access: access,
                old_layout: None,
                new_layout: layout,
                family_transfer: None,
                range: self.subresource.range,
            },
        );
        self.family = Ownership::Owned { family: queue.family };
        self.stages = stages;
        self.access = access;
        self.layout = Some(layout);
        self.subresource
    }
}

} // verus!
