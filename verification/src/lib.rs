//! Core resource-cycling logic of a GPU presentation and descriptor layer:
//! a swapchain manager that hands out presentable images under strict
//! acquire/present protocol rules, and a descriptor-instance engine that
//! lazily refreshes per-frame descriptor sets, emitting GPU-visible writes
//! only for bindings whose resolved value actually changed.
//!
//! Native device and surface services (allocation, swapchain creation,
//! image acquisition) are consumed through plain data: callers perform the
//! native calls and feed their outcomes in, so every decision made here is
//! verified.

use vstd::prelude::*;

pub mod access;
pub mod buffer;
pub mod descriptor;
pub mod device;
pub mod encoder;
pub mod format;
pub mod image;
pub mod memory;
pub mod queue;
pub mod stage;
pub mod surface;
pub mod swapchain;

verus! {

/// Marker error for a failed device or host allocation surfaced to callers.
#[derive(Clone, Copy, Debug, PartialEq, Eq, Structural, Hash)]
pub struct OutOfMemory;

/// Size of one image dimension, in texels.
pub type ImageSize = u32;

/// Two-dimensional extent.
#[derive(Clone, Copy, Debug, PartialEq, Eq, Structural, Hash)]
pub struct Extent2d {
    pub width: ImageSize,
    pub height: ImageSize,
}

/// Three-dimensional extent.
#[derive(Clone, Copy, Debug, PartialEq, Eq, Structural, Hash)]
pub struct Extent3d {
    pub width: ImageSize,
    pub height: ImageSize,
    pub depth: ImageSize,
}

/// Three-dimensional signed offset.
#[derive(Clone, Copy, Debug, PartialEq, Eq, Structural, Hash)]
pub struct Offset3d {
    pub x: i32,
    pub y: i32,
    pub z: i32,
}

} // verus!
