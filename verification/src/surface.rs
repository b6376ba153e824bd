//! Presentation surfaces: their errors, capabilities and native window
//! handle kinds.

use vstd::prelude::*;
use crate::format::Format;
use crate::image::ImageUsage;
use crate::{Extent2d, OutOfMemory};

verus! {

/// Error of an operation on a surface or its swapchain.
#[derive(Clone, Copy, Debug, PartialEq, Eq, Structural, Hash)]
pub enum SurfaceError {
    /// An allocation the operation needed failed.
    OutOfMemory { source: OutOfMemory },
    /// The surface cannot be presented to by this device.
    NotSupported,
    /// The requested image usage is not supported for surface images.
    UsageNotSupported { usage: ImageUsage },
    /// The surface was lost.
    SurfaceLost,
    /// The requested format is not supported for surface images.
    FormatUnsupported { format: Format },
    /// The requested presentation mode is not supported for surface images.
    PresentModeUnsupported { mode: PresentMode },
    /// The surface is already used by another swapchain.
    AlreadyUsed,
    /// The native window is in use.
    WindowIsInUse,
    /// Native initialization failed.
    InitializationFailed,
    /// Too many images are acquired and not yet presented.
    TooManyAcquired,
    /// The swapchain is not configured.
    NotConfigured,
}

impl core::convert::From<OutOfMemory> for SurfaceError {
    /// A failed allocation surfaces as the out-of-memory error.
    fn from(source: OutOfMemory) -> (r: SurfaceError) {
        SurfaceError::OutOfMemory { source }
    }
}

impl vstd::std_specs::convert::FromSpecImpl<OutOfMemory> for SurfaceError {
    open spec fn obeys_from_spec() -> bool {
        true
    }

    open spec fn from_spec(source: OutOfMemory) -> SurfaceError {
        SurfaceError::OutOfMemory { source }
    }
}

/// Kind of a native window handle.
#[derive(Clone, Copy, Debug, PartialEq, Eq, Structural, Hash)]
#[non_exhaustive]
pub enum RawWindowHandleKind {
    IOS,
    MacOS,
    Xlib,
    Xcb,
    Wayland,
    Windows,
    Web,
    Android,
    Unknown,
}

#[verifier::external_type_specification]
#[verifier::external_body]
pub struct ExRawWindowHandle(raw_window_handle::RawWindowHandle);

impl RawWindowHandleKind {
    /// Kind of the given native window handle.
    ///
    /// Relies on `raw_window_handle::RawWindowHandle`: each arm only tells
    /// the enum's variants apart; on this target the variants are `Xlib`,
    /// `Xcb` and `Wayland`.
    #[verifier::external_body]
    #[allow(unreachable_patterns)]
    pub fn of(window: &raw_window_handle::RawWindowHandle) -> RawWindowHandleKind {
        match window {
            raw_window_handle::RawWindowHandle::Wayland(_) => RawWindowHandleKind::Wayland,
            raw_window_handle::RawWindowHandle::Xcb(_) => RawWindowHandleKind::Xcb,
            raw_window_handle::RawWindowHandle::Xlib(_) => RawWindowHandleKind::Xlib,
            _ => RawWindowHandleKind::Unknown,
        }
    }
}

/// Error of creating a surface for a native window.
#[derive(Clone, Copy, Debug, PartialEq, Eq, Structural, Hash)]
pub enum CreateSurfaceError {
    /// An allocation the creation needed failed.
    OutOfMemory { source: OutOfMemory },
    /// Windows of this kind are not supported.
    UnsupportedWindow { window: RawWindowHandleKind },
}

impl core::convert::From<OutOfMemory> for CreateSurfaceError {
    /// A failed allocation surfaces as the out-of-memory error.
    fn from(source: OutOfMemory) -> (r: CreateSurfaceError) {
        CreateSurfaceError::OutOfMemory { source }
    }
}

impl vstd::std_specs::convert::FromSpecImpl<OutOfMemory> for CreateSurfaceError {
    open spec fn obeys_from_spec() -> bool {
        true
    }

    open spec fn from_spec(source: OutOfMemory) -> CreateSurfaceError {
        CreateSurfaceError::OutOfMemory { source }
    }
}

/// Mode the presentation engine shows queued images in.
#[derive(Clone, Copy, Debug, PartialEq, Eq, Structural, Hash)]
pub enum PresentMode {
    /// Images are shown as soon as they are presented.
    Immediate,
    /// A one-slot mailbox; a newer image replaces the queued one.
    Mailbox,
    /// Images are shown in presentation order, one per vertical blank.
    Fifo,
    /// Fifo that tears instead of waiting when the queue runs empty.
    FifoRelaxed,
}

/// Composite alpha modes a surface supports, one bit per mode.
#[derive(Clone, Copy, Debug, PartialEq, Eq, Structural, Hash)]
pub struct CompositeAlphaFlags {
    pub bits: u32,
}

impl CompositeAlphaFlags {
    pub const OPAQUE: u32 = 0x1;

    pub const PRE_MULTIPLIED: u32 = 0x2;

    pub const POST_MULTIPLIED: u32 = 0x4;

    pub const INHERIT: u32 = 0x8;

    /// Mask with exactly the given bits set.
    pub fn from_bits(bits: u32) -> (r: CompositeAlphaFlags)
        ensures
            r.bits == bits,
    {
        CompositeAlphaFlags { bits }
    }
}

/// Transforms a surface supports, one bit per transform.
#[derive(Clone, Copy, Debug, PartialEq, Eq, Structural, Hash)]
pub struct SurfaceTransformFlags {
    pub bits: u32,
}

impl SurfaceTransformFlags {
    pub const IDENTITY: u32 = 0x001;

    pub const ROTATE_90: u32 = 0x002;

    pub const ROTATE_180: u32 = 0x004;

    pub const ROTATE_270: u32 = 0x008;

    pub const HORIZONTAL_MIRROR: u32 = 0x010;

    pub const HORIZONTAL_MIRROR_ROTATE_90: u32 = 0x020;

    pub const HORIZONTAL_MIRROR_ROTATE_180: u32 = 0x040;

    pub const HORIZONTAL_MIRROR_ROTATE_270: u32 = 0x080;

    pub const INHERIT: u32 = 0x100;

    /// Mask with exactly the given bits set.
    pub fn from_bits(bits: u32) -> (r: SurfaceTransformFlags)
        ensures
            r.bits == bits,
    {
        SurfaceTransformFlags { bits }
    }
}

/// Capabilities a surface reports for swapchain creation.
#[derive(Clone, Debug)]
pub struct SurfaceCapabilities {
    /// For each queue family of the device, whether it can present here.
    pub supported_families: Vec<bool>,
    /// Fewest images a swapchain over this surface may have.
    pub min_image_count: u32,
    /// Most images a swapchain over this surface may have; `None` when the
    /// surface reports no bound.
    pub max_image_count: Option<u32>,
    /// Extent surface images currently must have.
    pub current_extent: Extent2d,
    /// Transform the presentation engine currently applies.
    pub current_transform: SurfaceTransformFlags,
    /// Smallest extent the surface supports.
    pub min_image_extent: Extent2d,
    /// Largest extent the surface supports.
    pub max_image_extent: Extent2d,
    /// Usages supported for surface images.
    pub supported_usage: ImageUsage,
    /// Presentation modes the surface offers.
    pub present_modes: Vec<PresentMode>,
    /// Formats the surface offers.
    pub formats: Vec<Format>,
    /// Composite alpha modes the surface supports.
    pub supported_composite_alpha: CompositeAlphaFlags,
}

impl SurfaceCapabilities {
    /// Capability values that a surface can actually report: at least one
    /// image, and an upper bound no smaller than the lower one.
    pub open spec fn wf(self) -> bool {
        &&& self.min_image_count >= 1
        &&& match self.max_image_count {
            Some(max) => max >= self.min_image_count,
            None => true,
        }
    }
}

/// Info needed to create a surface: the native window it presents to.
#[derive(Clone, Copy, Debug)]
pub struct SurfaceInfo {
    pub window: raw_window_handle::RawWindowHandle,
}

} // verus!
