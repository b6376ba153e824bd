//! The swapchain manager: it negotiates configurations against the
//! surface's capabilities, hands out acquired images under the
//! acquired-count ceiling, and retires superseded generations, destroying
//! one only after every image of it reports no outstanding references.
//!
//! The native presentation engine acts through plain data: `configure`
//! decides and returns the creation request, `install_generation` takes the
//! native creation's outcome, `acquire_image` decides and names the wait
//! semaphore, and `image_acquired` takes the native acquire's outcome.

use vstd::prelude::*;
use crate::device::{Device, Semaphore};
use crate::format::Format;
use crate::image::{Image, ImageExtent, ImageInfo, ImageUsage, Samples};
use crate::surface::{CompositeAlphaFlags, PresentMode, SurfaceCapabilities, SurfaceError,
    SurfaceTransformFlags};
use crate::{Extent2d, OutOfMemory};

verus! {

/// Most retired generations the manager tolerates after draining: beyond
/// it, the application is not releasing old-generation resources in time.
pub const RETIRED_SOFT_CAP: usize = 16;

/// One image of a generation with its rotating acquire semaphore and its
/// release semaphore.
#[derive(Clone, Copy, Debug, PartialEq, Eq, Structural, Hash)]
pub struct SwapchainImageAndSemaphores {
    pub image: Image,
    pub acquire: Semaphore,
    pub release: Semaphore,
}

/// One swapchain generation: a native swapchain, its images, and the count
/// of images currently acquired from it.
#[derive(Clone, Debug)]
pub struct SwapchainInner {
    /// Identity of the native swapchain.
    pub handle: u64,
    /// Index the device registered the native swapchain under.
    pub index: u64,
    /// The generation's images, each with its semaphore pair.
    pub images: Vec<SwapchainImageAndSemaphores>,
    /// Number of images acquired and not yet presented.
    pub acquired_counter: u32,
    /// Negotiated texel format.
    pub format: Format,
    /// Negotiated extent.
    pub extent: Extent2d,
    /// Negotiated image usage.
    pub usage: ImageUsage,
    /// Negotiated presentation mode.
    pub mode: PresentMode,
    /// False once the presentation engine reported the generation
    /// suboptimal.
    pub optimal: bool,
}

impl SwapchainInner {
    /// The count of acquired images never exceeds the image count.
    pub open spec fn wf(self) -> bool {
        &&& self.acquired_counter <= self.images@.len()
        &&& self.images@.len() <= u32::MAX
    }
}

/// One acquired image, borrowed from the manager: it must be returned
/// through [`Swapchain::presented`] exactly once, and is consumed by that
/// call.
#[derive(Clone, Debug, PartialEq, Eq)]
pub struct SwapchainImage {
    /// The acquired image.
    pub image: Image,
    /// Semaphore the device must wait on before accessing the image.
    pub wait: Semaphore,
    /// Semaphore the device must signal after its last access.
    pub signal: Semaphore,
    /// Identity of the device that owns the swapchain.
    pub owner: u64,
    /// Identity of the native swapchain the image belongs to.
    pub handle: u64,
    /// For each queue family, whether it can present to the surface.
    pub supported_families: Vec<bool>,
    /// Index of the image within its generation.
    pub index: u32,
    /// False when the generation was suboptimal at acquisition.
    pub optimal: bool,
}

impl SwapchainImage {
    /// The acquired image.
    pub fn image(&self) -> (r: &Image)
        ensures
            *r == self.image,
    {
        &self.image
    }

    /// The semaphores to wait on before, and signal after, the last access
    /// to the image.
    pub fn wait_signal(&self) -> (r: (Semaphore, Semaphore))
        ensures
            r.0 == self.wait,
            r.1 == self.signal,
    {
        (self.wait, self.signal)
    }

    /// True when the image is optimal for the surface. A suboptimal image
    /// can still be rendered to and must still be presented; it hints that
    /// the swapchain should be reconfigured.
    pub fn is_optimal(&self) -> (r: bool)
        ensures
            r == self.optimal,
    {
        self.optimal
    }

    /// Index of the image within its generation.
    pub fn index(&self) -> (r: u32)
        ensures
            r == self.index,
    {
        self.index
    }

    /// True when the image's swapchain is owned by the given device.
    pub fn is_owned_by(&self, device: &Device) -> (r: bool)
        ensures
            r == (self.owner == device.id),
    {
        self.owner == device.id
    }

    /// Identity of the native swapchain the image belongs to.
    pub fn handle(&self) -> (r: u64)
        ensures
            r == self.handle,
    {
        self.handle
    }

    /// For each queue family of the owning device, whether it can present
    /// to the surface.
    pub fn supported_families(&self) -> (r: &Vec<bool>)
        ensures
            *r == self.supported_families,
    {
        &self.supported_families
    }
}

/// The swapchain manager's state.
#[derive(Clone, Debug)]
pub struct Swapchain {
    /// The current generation, if one is configured.
    pub inner: Option<SwapchainInner>,
    /// Superseded generations waiting for their images to be released,
    /// oldest first.
    pub retired: Vec<SwapchainInner>,
    /// The spare semaphore the next acquire waits with.
    pub free_semaphore: Semaphore,
    /// Identity of the owning device.
    pub device_id: u64,
    /// The surface's capabilities, as last queried.
    pub surface_capabilities: SurfaceCapabilities,
}

impl Swapchain {
    /// Native swapchain handles the manager still holds: the current
    /// generation's and every retired one's.
    pub open spec fn spec_holds_handle(self, h: u64) -> bool {
        ||| (self.inner matches Some(g) && g.handle == h)
        ||| exists|i: int| 0 <= i < self.retired@.len() && self.retired@[i].handle == h
    }

    /// Well-formed manager state: plausible capabilities, well-formed
    /// generations, a bounded retirement queue, and pairwise distinct
    /// native handles.
    pub open spec fn wf(self) -> bool {
        &&& self.surface_capabilities.wf()
        &&& self.retired@.len() <= RETIRED_SOFT_CAP + 1
        &&& (self.inner matches Some(g) ==> g.wf())
        &&& forall|i: int| 0 <= i < self.retired@.len() ==> (#[trigger] self.retired@[i]).wf()
        &&& forall|i: int, j: int|
            0 <= i < j < self.retired@.len() ==> self.retired@[i].handle != self.retired@[j].handle
        &&& (self.inner matches Some(g) ==> forall|i: int|
            0 <= i < self.retired@.len() ==> (#[trigger] self.retired@[i]).handle != g.handle)
    }

    /// A manager over a surface with the given capabilities.
    ///
    /// Fails with `NotSupported` when no queue family can present to the
    /// surface, and with the out-of-memory error when the spare semaphore
    /// cannot be allocated.
    pub fn new(capabilities: SurfaceCapabilities, device: &mut Device) -> (r: Result<
        Swapchain,
        SurfaceError,
    >)
        requires
            capabilities.wf(),
        ensures
            capabilities.supported_families@.len() == 0 ==> r == Err::<Swapchain, SurfaceError>(
                SurfaceError::NotSupported,
            ) && *final(device) == *old(device),
            capabilities.supported_families@.len() > 0 ==> (r matches Ok(s) <==> old(
                device,
            ).spec_can_alloc(1)),
            r matches Ok(s) ==> {
                &&& s.wf()
                &&& s.inner is None
                &&& s.retired@.len() == 0
                &&& s.free_semaphore.id == old(device).next_id
                &&& s.device_id == old(device).id
                &&& s.surface_capabilities == capabilities
                &&& *final(device) == old(device).spec_after_alloc(1)
            },
            capabilities.supported_families@.len() > 0 ==> (r matches Err(e) ==> e == (
            SurfaceError::OutOfMemory { source: OutOfMemory }) && *final(device) == *old(device)),
    {
        if capabilities.supported_families.len() == 0 {
            return Err(SurfaceError::NotSupported);
        }
        let free_semaphore = match device.create_semaphore() {
            Ok(s) => s,
            Err(source) => {
                return Err(SurfaceError::OutOfMemory { source });
            },
        };
        Ok(
            Swapchain {
                inner: None,
                retired: Vec::new(),
                free_semaphore,
                device_id: device.id,
                surface_capabilities: capabilities,
            },
        )
    }

    /// The surface's capabilities, as last queried.
    pub fn capabilities(&self) -> (r: &SurfaceCapabilities)
        ensures
            *r == self.surface_capabilities,
    {
        &self.surface_capabilities
    }

    /// Number of retired generations not yet destroyed.
    pub fn retired_count(&self) -> (r: usize)
        ensures
            r == self.retired@.len(),
    {
        self.retired.len()
    }

    /// True when the retirement backlog is over the soft cap, so the caller
    /// should let the device go idle to give resources a chance to be
    /// released before reconfiguring.
    pub fn needs_idle_wait(&self) -> (r: bool)
        ensures
            r == (self.retired@.len() > RETIRED_SOFT_CAP),
    {
        self.retired.len() > RETIRED_SOFT_CAP
    }

    /// Count of images of the current generation acquired and not yet
    /// presented; 0 when not configured.
    pub fn acquired_count(&self) -> (r: u32)
        ensures
            r == (match self.inner {
                Some(g) => g.acquired_counter,
                None => 0u32,
            }),
    {
        match &self.inner {
            Some(g) => g.acquired_counter,
            None => 0,
        }
    }

    /// Number of images of the current generation; 0 when not configured.
    pub fn image_count(&self) -> (r: usize)
        ensures
            r == (match self.inner {
                Some(g) => g.images@.len(),
                None => 0,
            }),
    {
        match &self.inner {
            Some(g) => g.images.len(),
            None => 0,
        }
    }

    /// True when a generation is configured.
    pub fn is_configured(&self) -> (r: bool)
        ensures
            r == (self.inner is Some),
    {
        self.inner.is_some()
    }
}

/// What the native layer reports when a configuration is attempted:
/// whether the device is still alive, the re-queried surface capabilities,
/// and, for each retired generation (oldest first), whether every one of
/// its images reports zero outstanding references.
#[derive(Debug)]
pub struct ConfigureQuery {
    pub device_alive: bool,
    pub capabilities: Result<SurfaceCapabilities, SurfaceError>,
    pub released: Vec<bool>,
}

/// The creation request a successful configuration decides: the parameters
/// the native swapchain must be created with, including the superseded
/// generation's handle so the presentation engine can reuse its resources.
#[derive(Clone, Copy, Debug, PartialEq, Eq, Structural, Hash)]
pub struct ConfigureRequest {
    pub usage: ImageUsage,
    pub format: Format,
    pub mode: PresentMode,
    pub image_count: u32,
    pub composite_alpha: CompositeAlphaFlags,
    pub transform: SurfaceTransformFlags,
    pub extent: Extent2d,
    pub old_swapchain: Option<u64>,
}

/// Length of the longest prefix of the first `n` release reports that are
/// all true: how many retired generations the drain destroys.
pub open spec fn spec_released_prefix(released: Seq<bool>, n: nat) -> nat
    decreases n,
{
    if n == 0 || released.len() == 0 || !released[0] {
        0
    } else {
        1 + spec_released_prefix(released.skip(1), (n - 1) as nat)
    }
}

impl Swapchain {
    /// How many retired generations a drain with these release reports
    /// destroys: the longest fully-released prefix of the queue.
    pub open spec fn spec_drain_count(self, released: Seq<bool>) -> nat {
        spec_released_prefix(released, self.retired@.len())
    }

    /// Retired generations left after the drain.
    pub open spec fn spec_retired_after_drain(self, released: Seq<bool>) -> int {
        self.retired@.len() - self.spec_drain_count(released)
    }

    /// The preferred image count, clamped into the surface's bounds.
    pub open spec fn spec_image_count(caps: SurfaceCapabilities) -> u32 {
        if caps.min_image_count > 3 {
            caps.min_image_count
        } else {
            match caps.max_image_count {
                Some(m) => if m < 3 {
                    m
                } else {
                    3u32
                },
                None => 3u32,
            }
        }
    }

    /// Decide a new configuration: drain the retirement queue of fully
    /// released generations, install the re-queried capabilities, validate
    /// the requested usage, format and mode against them, retire the
    /// current generation, and hand back the native creation request.
    ///
    /// The manager is left unconfigured until [`Swapchain::install_generation`]
    /// installs the creation's outcome.
    ///
    /// The retirement queue must not stay over its soft cap after the
    /// drain: such a backlog means old-generation resources are not being
    /// released in time, a usage error the caller must treat as fatal.
    #[verifier::loop_isolation(false)]
    pub fn configure(
        &mut self,
        usage: ImageUsage,
        format: Format,
        mode: PresentMode,
        query: ConfigureQuery,
    ) -> (r: Result<ConfigureRequest, SurfaceError>)
        requires
            old(self).wf(),
            query.capabilities matches Ok(c) ==> c.wf(),
            query.device_alive ==> old(self).spec_retired_after_drain(query.released@)
                <= RETIRED_SOFT_CAP as int,
        ensures
            final(self).wf(),
            final(self).free_semaphore == old(self).free_semaphore,
            final(self).device_id == old(self).device_id,
            !query.device_alive ==> r == Err::<ConfigureRequest, SurfaceError>(
                SurfaceError::SurfaceLost,
            ) && *final(self) == *old(self),
            query.device_alive ==> {
                let kept = old(self).retired@.skip(
                    old(self).spec_drain_count(query.released@) as int,
                );
                match query.capabilities {
                    Err(qe) => r == Err::<ConfigureRequest, SurfaceError>(qe) && final(self).retired@ == kept && final(self).inner == old(self).inner && final(self).surface_capabilities == old(self).surface_capabilities,
                    Ok(c) => {
                        &&& final(self).surface_capabilities == c
                        &&& (c.supported_usage.bits & usage.bits != usage.bits ==> r == Err::<
                            ConfigureRequest,
                            SurfaceError,
                        >(SurfaceError::UsageNotSupported { usage }) && final(self).retired@ == kept
                            && final(self).inner == old(self).inner)
                        &&& (c.supported_usage.bits & usage.bits == usage.bits
                            && !c.formats@.contains(format) ==> r == Err::<
                            ConfigureRequest,
                            SurfaceError,
                        >(SurfaceError::FormatUnsupported { format }) && final(self).retired@
                            == kept && final(self).inner == old(self).inner)
                        &&& (c.supported_usage.bits & usage.bits == usage.bits
                            && c.formats@.contains(format) && !c.present_modes@.contains(mode)
                            ==> r == Err::<ConfigureRequest, SurfaceError>(
                            SurfaceError::PresentModeUnsupported { mode },
                        ) && final(self).retired@ == kept && final(self).inner == old(self).inner)
                        &&& (c.supported_usage.bits & usage.bits == usage.bits
                            && c.formats@.contains(format) && c.present_modes@.contains(mode)
                            ==> (r matches Ok(req) && {
                            &&& req.usage == usage
                            &&& req.format == format
                            &&& req.mode == mode
                            &&& req.image_count == Swapchain::spec_image_count(c)
                            &&& spec_composite_alpha_pick(
                                c.supported_composite_alpha.bits,
                                req.composite_alpha.bits,
                            )
                            &&& req.transform == c.current_transform
                            &&& req.extent == c.current_extent
                            &&& req.old_swapchain == (match old(self).inner {
                                Some(g) => Some(g.handle),
                                None => None::<u64>,
                            })
                            &&& final(self).inner is None
                            &&& final(self).retired@ == kept + (match old(self).inner {
                                Some(g) => seq![g],
                                None => Seq::<SwapchainInner>::empty(),
                            })
                        }))
                    },
                }
            },
    {
        if !query.device_alive {
            return Err(SurfaceError::SurfaceLost);
        }
        let ghost r0 = self.retired@;
        let ghost rel = query.released@;

        // Destroy the longest fully-released prefix of the retirement
        // queue; the caller destroys the corresponding native swapchains.
        let mut drained: usize = 0;
        proof {
            assert(rel.skip(0) =~= rel);
            assert(r0.skip(0) =~= r0);
        }
        while self.retired.len() > 0 && drained < query.released.len() && query.released[drained]
            invariant
                drained <= rel.len(),
                drained <= r0.len(),
                self.retired@ == r0.skip(drained as int),
                spec_released_prefix(rel, r0.len()) == drained + spec_released_prefix(
                    rel.skip(drained as int),
                    (r0.len() - drained) as nat,
                ),
                self.inner == old(self).inner,
                self.free_semaphore == old(self).free_semaphore,
                self.device_id == old(self).device_id,
                self.surface_capabilities == old(self).surface_capabilities,
            decreases self.retired@.len(),
        {
            self.retired.remove(0);
            proof {
                assert(rel.skip(drained as int).skip(1) =~= rel.skip(drained + 1));
                assert(r0.skip(drained as int).skip(1) =~= r0.skip(drained + 1));
            }
            drained = drained + 1;
        }
        proof {
            assert(spec_released_prefix(rel.skip(drained as int), (r0.len() - drained) as nat)
                == 0);
            assert(drained == old(self).spec_drain_count(rel));
        }

        // Install the freshly queried capabilities, then validate the
        // request against them.
        let caps = match query.capabilities {
            Ok(c) => c,
            Err(e) => {
                return Err(e);
            },
        };
        self.surface_capabilities = caps;
        if !self.surface_capabilities.supported_usage.contains(usage) {
            return Err(SurfaceError::UsageNotSupported { usage });
        }
        if !contains_format(&self.surface_capabilities.formats, format) {
            return Err(SurfaceError::FormatUnsupported { format });
        }
        if !contains_mode(&self.surface_capabilities.present_modes, mode) {
            return Err(SurfaceError::PresentModeUnsupported { mode });
        }

        let composite_alpha = pick_composite_alpha(
            self.surface_capabilities.supported_composite_alpha,
        );
        let min = self.surface_capabilities.min_image_count;
        let image_count: u32 = if min > 3 {
            min
        } else {
            match self.surface_capabilities.max_image_count {
                Some(m) => if m < 3 {
                    m
                } else {
                    3
                },
                None => 3,
            }
        };

        // Retire the current generation; its handle is passed to the
        // native creation so the presentation engine can reuse resources.
        let old_swapchain: Option<u64> = match self.inner.take() {
            Some(g) => {
                let handle = g.handle;
                self.retired.push(g);
                Some(handle)
            },
            None => None,
        };

        Ok(
            ConfigureRequest {
                usage,
                format,
                mode,
                image_count,
                composite_alpha,
                transform: self.surface_capabilities.current_transform,
                extent: self.surface_capabilities.current_extent,
                old_swapchain,
            },
        )
    }
}

/// What the native creation call produced: the new swapchain's identity,
/// the index the device registered it under, and its images' identities.
#[derive(Clone, Debug)]
pub struct NativeSwapchain {
    pub handle: u64,
    pub index: u64,
    pub images: Vec<u64>,
}

/// The info every image of a generation created from `request` carries.
pub open spec fn spec_generation_image_info(request: ConfigureRequest) -> ImageInfo {
    ImageInfo {
        extent: ImageExtent::D2 { width: request.extent.width, height: request.extent.height },
        format: request.format,
        levels: 1,
        layers: 1,
        samples: Samples::Samples1,
        usage: request.usage,
    }
}

/// What the caller must do next to acquire an image.
#[derive(Clone, Copy, Debug, PartialEq, Eq, Structural, Hash)]
pub enum AcquireRequest {
    /// Reconfigure with these parameters and ask again: the current
    /// generation is no longer optimal and an optimal image was asked for.
    Reconfigure { usage: ImageUsage, format: Format, mode: PresentMode },
    /// Call the native acquire on this swapchain, waiting with this
    /// semaphore.
    Wait { swapchain: u64, semaphore: Semaphore },
}

/// Outcome of the native acquire call, as the caller's native layer maps
/// it. Host memory exhaustion and unknown native statuses are fatal in
/// that layer and never reach the manager.
#[derive(Clone, Copy, Debug, PartialEq, Eq, Structural, Hash)]
pub enum AcquireOutcome {
    /// An image was acquired.
    Success { index: u32 },
    /// An image was acquired, but the generation is now suboptimal for the
    /// surface; the image must still be presented.
    Suboptimal { index: u32 },
    /// No image was acquired: the generation is out of date and must be
    /// replaced.
    OutOfDate,
    /// The surface was lost.
    SurfaceLost,
    /// Device memory ran out.
    OutOfDeviceMemory,
}

/// What a completed acquire produced.
#[derive(Clone, Debug, PartialEq, Eq)]
pub enum Acquired {
    /// An image, ready to render to and present.
    Image(SwapchainImage),
    /// Nothing: reconfigure with these parameters and retry.
    Reconfigure { usage: ImageUsage, format: Format, mode: PresentMode },
}

impl Swapchain {
    /// The state a successful acquire of image `index` leaves behind, and
    /// the handle it gives out: the spare semaphore rotates into the
    /// image's acquire slot, the count of acquired images grows by one, and
    /// the handle borrows the image with its semaphore pair.
    pub open spec fn spec_acquire_success(
        self,
        index: u32,
        now_optimal: bool,
        img: SwapchainImage,
        post: Swapchain,
    ) -> bool {
        let g = self.inner.unwrap();
        let iws = g.images@[index as int];
        &&& (post.inner matches Some(g2) && {
            &&& g2.handle == g.handle
            &&& g2.index == g.index
            &&& g2.format == g.format
            &&& g2.extent == g.extent
            &&& g2.usage == g.usage
            &&& g2.mode == g.mode
            &&& g2.optimal == now_optimal
            &&& g2.acquired_counter == g.acquired_counter + 1
            &&& g2.images@ == g.images@.update(
                index as int,
                SwapchainImageAndSemaphores {
                    image: iws.image,
                    acquire: self.free_semaphore,
                    release: iws.release,
                },
            )
        })
        &&& post.free_semaphore == iws.acquire
        &&& post.retired@ == self.retired@
        &&& post.device_id == self.device_id
        &&& post.surface_capabilities == self.surface_capabilities
        &&& img.image == iws.image
        &&& img.wait == self.free_semaphore
        &&& img.signal == iws.release
        &&& img.owner == self.device_id
        &&& img.handle == g.handle
        &&& img.supported_families@ == self.surface_capabilities.supported_families@
        &&& img.index == index
        &&& img.optimal == now_optimal
    }

    /// Install the outcome of the native creation that a
    /// [`Swapchain::configure`] request asked for: allocate one semaphore
    /// pair per image and make the new generation current, marked optimal,
    /// with no image acquired.
    ///
    /// On a creation error, or when a semaphore allocation fails, the
    /// manager stays unconfigured; in the latter case the caller must
    /// destroy the freshly created native swapchain.
    #[verifier::loop_isolation(false)]
    pub fn install_generation(
        &mut self,
        request: &ConfigureRequest,
        creation: Result<NativeSwapchain, SurfaceError>,
        device: &mut Device,
    ) -> (r: Result<(), SurfaceError>)
        requires
            old(self).wf(),
            old(self).inner is None,
            creation matches Ok(n) ==> n.images@.len() <= u32::MAX && !old(self).spec_holds_handle(
                n.handle,
            ),
        ensures
            final(self).wf(),
            final(self).retired@ == old(self).retired@,
            final(self).free_semaphore == old(self).free_semaphore,
            final(self).device_id == old(self).device_id,
            final(self).surface_capabilities == old(self).surface_capabilities,
            final(device).id == old(device).id,
            creation matches Err(e) ==> r == Err::<(), SurfaceError>(e) && final(self).inner
                is None && *final(device) == *old(device),
            creation matches Ok(n) ==> {
                &&& (r is Ok <==> old(device).spec_can_alloc(2 * n.images@.len()))
                &&& (r is Err ==> final(self).inner is None && r == Err::<(), SurfaceError>(
                    SurfaceError::OutOfMemory { source: OutOfMemory },
                ))
                &&& (r is Ok ==> *final(device) == old(device).spec_after_alloc(
                    2 * n.images@.len(),
                ) && (final(self).inner matches Some(g) && {
                    &&& g.handle == n.handle
                    &&& g.index == n.index
                    &&& g.acquired_counter == 0
                    &&& g.optimal == true
                    &&& g.format == request.format
                    &&& g.extent == request.extent
                    &&& g.usage == request.usage
                    &&& g.mode == request.mode
                    &&& g.images@.len() == n.images@.len()
                    &&& forall|i: int|
                        0 <= i < n.images@.len() ==> (#[trigger] g.images@[i]).image.id
                            == n.images@[i] && g.images@[i].image.info
                            == spec_generation_image_info(*request) && g.images@[i].acquire.id
                            == old(device).next_id + 2 * i && g.images@[i].release.id == old(
                            device,
                        ).next_id + 2 * i + 1
                }))
            },
    {
        let native = match creation {
            Ok(n) => n,
            Err(e) => {
                return Err(e);
            },
        };
        let ghost pre_dev = *device;
        let count = native.images.len();
        let mut images: Vec<SwapchainImageAndSemaphores> = Vec::new();
        let mut i: usize = 0;
        while i < count
            invariant
                i <= count,
                count == native.images@.len(),
                images@.len() == i,
                pre_dev.spec_can_alloc((2 * i) as nat),
                *device == pre_dev.spec_after_alloc((2 * i) as nat),
                forall|k: int|
                    0 <= k < i ==> (#[trigger] images@[k]).image.id == native.images@[k]
                        && images@[k].image.info == spec_generation_image_info(*request)
                        && images@[k].acquire.id == pre_dev.next_id + 2 * k
                        && images@[k].release.id == pre_dev.next_id + 2 * k + 1,
                *self == *old(self),
            decreases count - i,
        {
            let ghost done = (2 * i) as nat;
            let acquire = match device.create_semaphore() {
                Ok(s) => s,
                Err(_) => {
                    proof {
                        if pre_dev.spec_can_alloc(2 * count as nat) {
                            pre_dev.lemma_can_alloc_mono(done + 1, 2 * count as nat);
                            pre_dev.lemma_alloc_compose(done, 1);
                        }
                    }
                    return Err(SurfaceError::OutOfMemory { source: OutOfMemory });
                },
            };
            proof {
                pre_dev.lemma_alloc_compose(done, 1);
            }
            let release = match device.create_semaphore() {
                Ok(s) => s,
                Err(_) => {
                    proof {
                        if pre_dev.spec_can_alloc(2 * count as nat) {
                            pre_dev.lemma_can_alloc_mono(done + 2, 2 * count as nat);
                            pre_dev.lemma_alloc_compose(done + 1, 1);
                        }
                    }
                    return Err(SurfaceError::OutOfMemory { source: OutOfMemory });
                },
            };
            proof {
                pre_dev.lemma_alloc_compose(done + 1, 1);
            }
            let image = Image::new(
                native.images[i],
                ImageInfo {
                    extent: ImageExtent::D2 {
                        width: request.extent.width,
                        height: request.extent.height,
                    },
                    format: request.format,
                    levels: 1,
                    layers: 1,
                    samples: Samples::Samples1,
                    usage: request.usage,
                },
            );
            images.push(SwapchainImageAndSemaphores { image, acquire, release });
            i = i + 1;
        }
        self.inner = Some(
            SwapchainInner {
                handle: native.handle,
                index: native.index,
                images,
                acquired_counter: 0,
                format: request.format,
                extent: request.extent,
                usage: request.usage,
                mode: request.mode,
                optimal: true,
            },
        );
        Ok(())
    }

    /// Decide the next step of an acquire: fail when not configured or
    /// when the caller already holds too many images, ask for a
    /// reconfiguration when an optimal image is requested of a generation
    /// no longer optimal, and otherwise name the native call to make and
    /// the semaphore it must wait with.
    pub fn acquire_image(&self, optimal: bool, device_alive: bool) -> (r: Result<
        AcquireRequest,
        SurfaceError,
    >)
        requires
            self.wf(),
        ensures
            !device_alive ==> r == Err::<AcquireRequest, SurfaceError>(SurfaceError::SurfaceLost),
            device_alive && self.inner is None ==> r == Err::<AcquireRequest, SurfaceError>(
                SurfaceError::NotConfigured,
            ),
            device_alive ==> (self.inner matches Some(g) ==> {
                let over = g.acquired_counter + self.surface_capabilities.min_image_count
                    > g.images@.len();
                &&& (over ==> r == Err::<AcquireRequest, SurfaceError>(
                    SurfaceError::TooManyAcquired,
                ))
                &&& (!over && optimal && !g.optimal ==> r == Ok::<AcquireRequest, SurfaceError>(
                    AcquireRequest::Reconfigure { usage: g.usage, format: g.format, mode: g.mode },
                ))
                &&& (!over && (!optimal || g.optimal) ==> r == Ok::<AcquireRequest, SurfaceError>(
                    AcquireRequest::Wait { swapchain: g.handle, semaphore: self.free_semaphore },
                ))
            }),
    {
        if !device_alive {
            return Err(SurfaceError::SurfaceLost);
        }
        match &self.inner {
            None => Err(SurfaceError::NotConfigured),
            Some(g) => {
                if g.acquired_counter as u64 + self.surface_capabilities.min_image_count as u64
                    > g.images.len() as u64 {
                    return Err(SurfaceError::TooManyAcquired);
                }
                if optimal && !g.optimal {
                    return Ok(
                        AcquireRequest::Reconfigure {
                            usage: g.usage,
                            format: g.format,
                            mode: g.mode,
                        },
                    );
                }
                Ok(AcquireRequest::Wait { swapchain: g.handle, semaphore: self.free_semaphore })
            },
        }
    }

    /// Take in the outcome of the native acquire that a
    /// [`Swapchain::acquire_image`] wait request asked for.
    ///
    /// On success the spare semaphore rotates into the image's acquire
    /// slot — so an acquire never waits on a semaphore still referenced by
    /// in-flight work — the acquired count grows by one, and the image is
    /// handed out; a suboptimal outcome additionally marks the generation,
    /// so the next optimal-requesting acquire reconfigures. An out-of-date
    /// outcome asks the caller to reconfigure and retry; the remaining
    /// outcomes surface their errors.
    ///
    /// Call this only after [`Swapchain::acquire_image`] returned a wait
    /// request, with the outcome of that native call.
    pub fn image_acquired(&mut self, outcome: AcquireOutcome) -> (r: Result<
        Acquired,
        SurfaceError,
    >)
        requires
            old(self).wf(),
            old(self).inner is Some,
            (match old(self).inner {
                Some(g) => g.acquired_counter + old(self).surface_capabilities.min_image_count
                    <= g.images@.len(),
                None => false,
            }),
            (outcome matches AcquireOutcome::Success { index } ==> (index as int) < old(
                self,
            ).inner.unwrap().images@.len()),
            (outcome matches AcquireOutcome::Suboptimal { index } ==> (index as int) < old(
                self,
            ).inner.unwrap().images@.len()),
        ensures
            final(self).wf(),
            final(self).retired@ == old(self).retired@,
            final(self).device_id == old(self).device_id,
            final(self).surface_capabilities == old(self).surface_capabilities,
            outcome is OutOfDate ==> *final(self) == *old(self) && r == Ok::<
                Acquired,
                SurfaceError,
            >(
                Acquired::Reconfigure {
                    usage: old(self).inner.unwrap().usage,
                    format: old(self).inner.unwrap().format,
                    mode: old(self).inner.unwrap().mode,
                },
            ),
            outcome is SurfaceLost ==> *final(self) == *old(self) && r == Err::<
                Acquired,
                SurfaceError,
            >(SurfaceError::SurfaceLost),
            outcome is OutOfDeviceMemory ==> *final(self) == *old(self) && r == Err::<
                Acquired,
                SurfaceError,
            >(SurfaceError::OutOfMemory { source: OutOfMemory }),
            outcome matches AcquireOutcome::Success { index } ==> (r matches Ok(a) && a matches
                Acquired::Image(img) && old(self).spec_acquire_success(
                index,
                old(self).inner.unwrap().optimal,
                img,
                *final(self),
            )),
            outcome matches AcquireOutcome::Suboptimal { index } ==> (r matches Ok(a) && a matches
                Acquired::Image(img) && old(self).spec_acquire_success(
                index,
                false,
                img,
                *final(self),
            )),
    {
        let (idx, mark_suboptimal) = match outcome {
            AcquireOutcome::Success { index } => (index, false),
            AcquireOutcome::Suboptimal { index } => (index, true),
            AcquireOutcome::OutOfDate => {
                match &self.inner {
                    Some(g) => {
                        return Ok(
                            Acquired::Reconfigure { usage: g.usage, format: g.format, mode: g.mode },
                        );
                    },
                    None => {
                        proof {
                            assert(false);
                        }
                        return Err(SurfaceError::NotConfigured);
                    },
                }
            },
            AcquireOutcome::SurfaceLost => {
                return Err(SurfaceError::SurfaceLost);
            },
            AcquireOutcome::OutOfDeviceMemory => {
                return Err(SurfaceError::OutOfMemory { source: OutOfMemory });
            },
        };
        let families = clone_bools(&self.surface_capabilities.supported_families);
        match &mut self.inner {
            Some(g) => {
                if mark_suboptimal {
                    g.optimal = false;
                }
                let i = idx as usize;
                let iws = g.images[i];
                g.images.set(
                    i,
                    SwapchainImageAndSemaphores {
                        image: iws.image,
                        acquire: self.free_semaphore,
                        release: iws.release,
                    },
                );
                g.acquired_counter = g.acquired_counter + 1;
                let img = SwapchainImage {
                    image: iws.image,
                    wait: self.free_semaphore,
                    signal: iws.release,
                    owner: self.device_id,
                    handle: g.handle,
                    supported_families: families,
                    index: idx,
                    optimal: g.optimal,
                };
                self.free_semaphore = iws.acquire;
                Ok(Acquired::Image(img))
            },
            None => {
                proof {
                    assert(false);
                }
                Err(SurfaceError::NotConfigured)
            },
        }
    }

    /// Take back an acquired image: the count of acquired images of its
    /// generation — current or retired — goes down by exactly one. The
    /// handle is consumed, so presenting it twice cannot be written.
    #[verifier::loop_isolation(false)]
    pub fn presented(&mut self, image: SwapchainImage)
        requires
            old(self).wf(),
            old(self).spec_holds_handle(image.handle),
            (match old(self).inner {
                Some(g) => g.handle == image.handle ==> g.acquired_counter >= 1,
                None => true,
            }),
            forall|j: int|
                0 <= j < old(self).retired@.len() && (#[trigger] old(self).retired@[j]).handle
                    == image.handle ==> old(self).retired@[j].acquired_counter >= 1,
        ensures
            final(self).wf(),
            final(self).free_semaphore == old(self).free_semaphore,
            final(self).device_id == old(self).device_id,
            final(self).surface_capabilities == old(self).surface_capabilities,
            (match old(self).inner {
                Some(g) => g.handle == image.handle,
                None => false,
            }) ==> {
                let g = old(self).inner.unwrap();
                &&& final(self).retired@ == old(self).retired@
                &&& (final(self).inner matches Some(g2) && g2 == SwapchainInner {
                    acquired_counter: (g.acquired_counter - 1) as u32,
                    ..g
                })
            },
            !(match old(self).inner {
                Some(g) => g.handle == image.handle,
                None => false,
            }) ==> {
                &&& final(self).inner == old(self).inner
                &&& final(self).retired@.len() == old(self).retired@.len()
                &&& forall|j: int|
                    0 <= j < old(self).retired@.len() && (#[trigger] old(self).retired@[j]).handle
                        != image.handle ==> final(self).retired@[j] == old(self).retired@[j]
                &&& forall|j: int|
                    0 <= j < old(self).retired@.len() && (#[trigger] old(self).retired@[j]).handle
                        == image.handle ==> final(self).retired@[j] == SwapchainInner {
                        acquired_counter: (old(self).retired@[j].acquired_counter - 1) as u32,
                        ..old(self).retired@[j]
                    }
            },
    {
        let h = image.handle;
        let mut in_current = false;
        match &mut self.inner {
            Some(g) => {
                if g.handle == h {
                    g.acquired_counter = g.acquired_counter - 1;
                    in_current = true;
                }
            },
            None => {},
        }
        if in_current {
            return ;
        }
        let mut j: usize = 0;
        while j < self.retired.len()
            invariant
                j <= self.retired@.len(),
                forall|k: int| 0 <= k < j ==> (#[trigger] self.retired@[k]).handle != h,
                *self == *old(self),
            decreases self.retired@.len() - j,
        {
            if self.retired[j].handle == h {
                let c = self.retired[j].acquired_counter;
                let g = self.retired.remove(j);
                self.retired.insert(
                    j,
                    SwapchainInner { acquired_counter: c - 1, ..g },
                );
                return ;
            }
            j = j + 1;
        }
        proof {
            assert(false);
        }
    }
}

/// Each position inside the released prefix carries a true report.
proof fn lemma_released_prefix_all_true(released: Seq<bool>, n: nat, i: int)
    requires
        0 <= i < spec_released_prefix(released, n),
    ensures
        0 <= i < released.len(),
        released[i],
    decreases n,
{
    if i > 0 {
        lemma_released_prefix_all_true(released.skip(1), (n - 1) as nat, i - 1);
    }
}

/// Law: a retired generation is destroyed only once every one of its
/// images reports zero outstanding references. The drain in
/// [`Swapchain::configure`] drops exactly the first `spec_drain_count`
/// retired generations, and each of those positions carries a true
/// release report.
pub proof fn lemma_drain_destroys_only_released(s: Swapchain, released: Seq<bool>, i: int)
    requires
        0 <= i < s.spec_drain_count(released),
    ensures
        0 <= i < released.len(),
        released[i],
{
    lemma_released_prefix_all_true(released, s.retired@.len(), i);
}

/// Law: the acquired-count ceiling. An acquire is only completed after
/// [`Swapchain::acquire_image`] admitted it, that is with at least
/// `min_image_count` images still in the presentation engine's hands; a
/// successful completion therefore leaves at most
/// `image_count - min_image_count + 1` images acquired, and one more
/// acquire attempt past the ceiling is answered with `TooManyAcquired`
/// instead of blocking.
pub proof fn lemma_acquire_ceiling(
    pre: Swapchain,
    post: Swapchain,
    index: u32,
    now_optimal: bool,
    img: SwapchainImage,
)
    requires
        pre.wf(),
        pre.inner is Some,
        pre.inner.unwrap().acquired_counter + pre.surface_capabilities.min_image_count
            <= pre.inner.unwrap().images@.len(),
        index < pre.inner.unwrap().images@.len(),
        pre.spec_acquire_success(index, now_optimal, img, post),
    ensures
        post.inner.unwrap().acquired_counter + pre.surface_capabilities.min_image_count
            <= post.inner.unwrap().images@.len() + 1,
{
    let g = pre.inner.unwrap();
    let g2 = post.inner.unwrap();
    assert(g2.images@.len() == g.images@.len());
}

/// Law: the manager never holds more than one live generation — its type
/// allows at most one — and its retirement queue is bounded: after any
/// sequence of operations that keeps the manager well formed, at most one
/// more generation than the soft cap waits for destruction.
pub proof fn lemma_retired_bounded(s: Swapchain)
    requires
        s.wf(),
    ensures
        s.retired@.len() <= RETIRED_SOFT_CAP + 1,
{
}

/// Law: the count of acquired images of a well-formed generation never
/// exceeds its image count; together with the `acquire_image` contract,
/// an acquire past `image_count - min_image_count` images is refused with
/// `TooManyAcquired` instead of blocking.
pub proof fn lemma_acquired_bounded(s: Swapchain)
    requires
        s.wf(),
    ensures
        s.inner matches Some(g) ==> g.acquired_counter <= g.images@.len(),
{
}

/// A copy of the given booleans.
fn clone_bools(v: &Vec<bool>) -> (r: Vec<bool>)
    ensures
        r@ == v@,
{
    let mut r: Vec<bool> = Vec::new();
    let mut i: usize = 0;
    while i < v.len()
        invariant
            i <= v@.len(),
            r@ == v@.take(i as int),
        decreases v@.len() - i,
    {
        r.push(v[i]);
        proof {
            assert(r@ =~= v@.take(i + 1));
        }
        i = i + 1;
    }
    proof {
        assert(r@ =~= v@);
    }
    r
}

/// True when the format occurs in the list.
fn contains_format(v: &Vec<Format>, f: Format) -> (r: bool)
    ensures
        r == v@.contains(f),
{
    let mut i: usize = 0;
    while i < v.len()
        invariant
            i <= v@.len(),
            forall|j: int| 0 <= j < i ==> v@[j] != f,
        decreases v@.len() - i,
    {
        if v[i] == f {
            return true;
        }
        i = i + 1;
    }
    false
}

/// True when the presentation mode occurs in the list.
fn contains_mode(v: &Vec<PresentMode>, m: PresentMode) -> (r: bool)
    ensures
        r == v@.contains(m),
{
    let mut i: usize = 0;
    while i < v.len()
        invariant
            i <= v@.len(),
            forall|j: int| 0 <= j < i ==> v@[j] != m,
        decreases v@.len() - i,
    {
        if v[i] == m {
            return true;
        }
        i = i + 1;
    }
    false
}

/// The lowest set bit of `supported`, or the opaque mode when a surface
/// anomalously reports no mode at all.
pub open spec fn spec_composite_alpha_pick(supported: u32, picked: u32) -> bool {
    if supported == 0 {
        picked == CompositeAlphaFlags::OPAQUE
    } else {
        &&& picked != 0
        &&& picked & supported == picked
        &&& picked & ((picked - 1) as u32) == 0
        &&& supported & ((picked - 1) as u32) == 0
    }
}

/// Pick the composite alpha mode deterministically: the lowest bit the
/// surface supports, or opaque when it reports none.
fn pick_composite_alpha(supported: CompositeAlphaFlags) -> (r: CompositeAlphaFlags)
    ensures
        spec_composite_alpha_pick(supported.bits, r.bits),
{
    let bits = supported.bits;
    if bits == 0 {
        CompositeAlphaFlags::from_bits(CompositeAlphaFlags::OPAQUE)
    } else {
        proof {
            assert(bits != 0 ==> !bits < 0xffff_ffffu32) by (bit_vector);
        }
        let low = bits & (!bits + 1);
        proof {
            assert(bits != 0 ==> {
                let l = bits & ((!bits + 1) as u32);
                l != 0 && (l & bits) == l && (l & ((l - 1) as u32)) == 0 && (bits & ((l - 1) as u32))
                    == 0
            }) by (bit_vector);
        }
        CompositeAlphaFlags::from_bits(low)
    }
}

} // verus!

