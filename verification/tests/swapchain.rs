use sierra::device::Device;
use sierra::format::Format;
use sierra::image::ImageUsage;
use sierra::surface::{
    CompositeAlphaFlags, PresentMode, SurfaceCapabilities, SurfaceError, SurfaceTransformFlags,
};
use sierra::swapchain::{
    Acquired, AcquireOutcome, AcquireRequest, ConfigureQuery, NativeSwapchain, Swapchain,
    SwapchainImage,
};
use sierra::Extent2d;

fn caps(min: u32, max: Option<u32>) -> SurfaceCapabilities {
    SurfaceCapabilities {
        supported_families: vec![true],
        min_image_count: min,
        max_image_count: max,
        current_extent: Extent2d {
            width: 640,
            height: 480,
        },
        current_transform: SurfaceTransformFlags::from_bits(SurfaceTransformFlags::IDENTITY),
        min_image_extent: Extent2d {
            width: 1,
            height: 1,
        },
        max_image_extent: Extent2d {
            width: 4096,
            height: 4096,
        },
        supported_usage: ImageUsage::from_bits(
            ImageUsage::COLOR_ATTACHMENT | ImageUsage::TRANSFER_DST,
        ),
        present_modes: vec![PresentMode::Immediate, PresentMode::Fifo],
        formats: vec![Format::BGRA8Srgb, Format::RGBA8Unorm],
        supported_composite_alpha: CompositeAlphaFlags::from_bits(
            CompositeAlphaFlags::OPAQUE | CompositeAlphaFlags::INHERIT,
        ),
    }
}

fn query(released: Vec<bool>) -> ConfigureQuery {
    ConfigureQuery {
        device_alive: true,
        capabilities: Ok(caps(2, None)),
        released,
    }
}

fn native(handle: u64, index: u64, count: u64) -> NativeSwapchain {
    NativeSwapchain {
        handle,
        index,
        images: (1000 * handle..1000 * handle + count).collect(),
    }
}

/// Configure and install one generation of `count` images.
fn configured(device: &mut Device) -> Swapchain {
    let mut chain = Swapchain::new(caps(2, None), device).unwrap();
    let request = chain
        .configure(
            ImageUsage::from_bits(ImageUsage::COLOR_ATTACHMENT),
            Format::BGRA8Srgb,
            PresentMode::Fifo,
            query(vec![]),
        )
        .unwrap();
    chain
        .install_generation(&request, Ok(native(1, 0, request.image_count as u64)), device)
        .unwrap();
    chain
}

fn acquire(chain: &mut Swapchain, index: u32) -> SwapchainImage {
    match chain.acquire_image(false, true).unwrap() {
        AcquireRequest::Wait { .. } => {}
        other => panic!("expected a wait request, got {:?}", other),
    }
    match chain
        .image_acquired(AcquireOutcome::Success { index })
        .unwrap()
    {
        Acquired::Image(img) => img,
        Acquired::Reconfigure { .. } => panic!("a successful outcome yields an image"),
    }
}

#[test]
fn configure_prefers_three_images_and_marks_optimal() {
    let mut device = Device::new(1);
    let mut chain = Swapchain::new(caps(2, None), &mut device).unwrap();
    let request = chain
        .configure(
            ImageUsage::from_bits(ImageUsage::COLOR_ATTACHMENT),
            Format::BGRA8Srgb,
            PresentMode::Immediate,
            query(vec![]),
        )
        .unwrap();
    assert_eq!(request.image_count, 3);
    assert_eq!(request.old_swapchain, None);

    chain
        .install_generation(&request, Ok(native(1, 0, 3)), &mut device)
        .unwrap();
    assert!(chain.is_configured());
    assert_eq!(chain.image_count(), 3);
    assert_eq!(chain.acquired_count(), 0);
}

#[test]
fn image_count_respects_surface_bounds() {
    let mut device = Device::new(1);
    let mut chain = Swapchain::new(caps(4, Some(8)), &mut device).unwrap();
    let request = chain
        .configure(
            ImageUsage::from_bits(ImageUsage::COLOR_ATTACHMENT),
            Format::BGRA8Srgb,
            PresentMode::Fifo,
            ConfigureQuery {
                device_alive: true,
                capabilities: Ok(caps(4, Some(8))),
                released: vec![],
            },
        )
        .unwrap();
    assert_eq!(request.image_count, 4, "clamped up to the minimum");

    let request = chain
        .configure(
            ImageUsage::from_bits(ImageUsage::COLOR_ATTACHMENT),
            Format::BGRA8Srgb,
            PresentMode::Fifo,
            ConfigureQuery {
                device_alive: true,
                capabilities: Ok(caps(1, Some(2))),
                released: vec![],
            },
        )
        .unwrap();
    assert_eq!(request.image_count, 2, "clamped down to the maximum");
}

#[test]
fn composite_alpha_picks_the_lowest_supported_bit() {
    let mut device = Device::new(1);
    let mut chain = Swapchain::new(caps(2, None), &mut device).unwrap();

    let mut c = caps(2, None);
    c.supported_composite_alpha =
        CompositeAlphaFlags::from_bits(CompositeAlphaFlags::POST_MULTIPLIED | CompositeAlphaFlags::INHERIT);
    let request = chain
        .configure(
            ImageUsage::from_bits(ImageUsage::COLOR_ATTACHMENT),
            Format::BGRA8Srgb,
            PresentMode::Fifo,
            ConfigureQuery {
                device_alive: true,
                capabilities: Ok(c),
                released: vec![],
            },
        )
        .unwrap();
    assert_eq!(request.composite_alpha.bits, CompositeAlphaFlags::POST_MULTIPLIED);

    let mut c = caps(2, None);
    c.supported_composite_alpha = CompositeAlphaFlags::from_bits(0);
    let request = chain
        .configure(
            ImageUsage::from_bits(ImageUsage::COLOR_ATTACHMENT),
            Format::BGRA8Srgb,
            PresentMode::Fifo,
            ConfigureQuery {
                device_alive: true,
                capabilities: Ok(c),
                released: vec![],
            },
        )
        .unwrap();
    assert_eq!(
        request.composite_alpha.bits,
        CompositeAlphaFlags::OPAQUE,
        "an empty report falls back to opaque"
    );
}

#[test]
fn configure_rejects_unsupported_parameters() {
    let mut device = Device::new(1);
    let mut chain = Swapchain::new(caps(2, None), &mut device).unwrap();

    let usage = ImageUsage::from_bits(ImageUsage::STORAGE);
    assert_eq!(
        chain.configure(usage, Format::BGRA8Srgb, PresentMode::Fifo, query(vec![])),
        Err(SurfaceError::UsageNotSupported { usage })
    );

    let usage = ImageUsage::from_bits(ImageUsage::COLOR_ATTACHMENT);
    assert_eq!(
        chain.configure(usage, Format::R8Unorm, PresentMode::Fifo, query(vec![])),
        Err(SurfaceError::FormatUnsupported {
            format: Format::R8Unorm
        })
    );

    assert_eq!(
        chain.configure(usage, Format::BGRA8Srgb, PresentMode::Mailbox, query(vec![])),
        Err(SurfaceError::PresentModeUnsupported {
            mode: PresentMode::Mailbox
        })
    );

    assert_eq!(
        chain.configure(
            usage,
            Format::BGRA8Srgb,
            PresentMode::Fifo,
            ConfigureQuery {
                device_alive: false,
                capabilities: Ok(caps(2, None)),
                released: vec![],
            },
        ),
        Err(SurfaceError::SurfaceLost)
    );
}

#[test]
fn new_requires_a_presentable_family() {
    let mut device = Device::new(1);
    let mut empty = caps(2, None);
    empty.supported_families = vec![];
    match Swapchain::new(empty, &mut device) {
        Err(SurfaceError::NotSupported) => {}
        other => panic!("expected NotSupported, got {:?}", other.map(|_| ())),
    }

    let mut broke = Device::with_budget(1, 0);
    match Swapchain::new(caps(2, None), &mut broke) {
        Err(SurfaceError::OutOfMemory { .. }) => {}
        other => panic!("expected OutOfMemory, got {:?}", other.map(|_| ())),
    }
}

#[test]
fn acquire_before_configure_is_refused() {
    let mut device = Device::new(1);
    let chain = Swapchain::new(caps(2, None), &mut device).unwrap();
    assert_eq!(
        chain.acquire_image(false, true),
        Err(SurfaceError::NotConfigured)
    );
    assert_eq!(
        chain.acquire_image(false, false),
        Err(SurfaceError::SurfaceLost)
    );
}

#[test]
fn acquired_count_is_ceilinged() {
    let mut device = Device::new(1);
    let mut chain = configured(&mut device);
    // 3 images, min_image_count 2: two acquires pass, the next is refused.
    let first = acquire(&mut chain, 0);
    assert_eq!(chain.acquired_count(), 1);
    let _second = acquire(&mut chain, 1);
    assert_eq!(chain.acquired_count(), 2);
    assert_eq!(
        chain.acquire_image(false, true),
        Err(SurfaceError::TooManyAcquired)
    );

    // Presenting makes room again.
    chain.presented(first);
    assert_eq!(chain.acquired_count(), 1);
    let _third = acquire(&mut chain, 0);
    assert_eq!(chain.acquired_count(), 2);
}

#[test]
fn presenting_decrements_by_exactly_one() {
    let mut device = Device::new(1);
    let mut chain = configured(&mut device);
    let img = acquire(&mut chain, 2);
    assert_eq!(chain.acquired_count(), 1);
    chain.presented(img);
    assert_eq!(chain.acquired_count(), 0);
}

#[test]
fn acquire_rotates_the_spare_semaphore() {
    let mut device = Device::new(1);
    // Device ids: 1 = spare semaphore, then per image: acquire, release.
    let mut chain = configured(&mut device);
    let img = acquire(&mut chain, 0);
    let (wait, signal) = img.wait_signal();
    assert_eq!(wait.id, 1, "the handle waits on the previous spare semaphore");
    assert_eq!(signal.id, 3, "the handle signals the image's release semaphore");
    assert_eq!(
        chain.free_semaphore.id, 2,
        "the image's old acquire semaphore becomes the spare"
    );
    assert!(img.is_optimal());
    assert_eq!(img.index(), 0);
    assert!(img.is_owned_by(&device));
}

#[test]
fn suboptimal_marks_the_generation_and_still_returns_the_image() {
    let mut device = Device::new(1);
    let mut chain = configured(&mut device);
    chain.acquire_image(false, true).unwrap();
    let img = match chain
        .image_acquired(AcquireOutcome::Suboptimal { index: 1 })
        .unwrap()
    {
        Acquired::Image(img) => img,
        Acquired::Reconfigure { .. } => panic!("a suboptimal outcome still yields an image"),
    };
    assert!(!img.is_optimal());
    assert_eq!(chain.acquired_count(), 1);

    // A later acquire that asks for an optimal image must reconfigure.
    match chain.acquire_image(true, true).unwrap() {
        AcquireRequest::Reconfigure { format, mode, .. } => {
            assert_eq!(format, Format::BGRA8Srgb);
            assert_eq!(mode, PresentMode::Fifo);
        }
        AcquireRequest::Wait { .. } => panic!("a non-optimal generation must be reconfigured"),
    }
    chain.presented(img);
}

#[test]
fn out_of_date_heals_through_reconfiguration() {
    let mut device = Device::new(1);
    let mut chain = configured(&mut device);
    chain.acquire_image(false, true).unwrap();
    let (usage, format, mode) = match chain.image_acquired(AcquireOutcome::OutOfDate).unwrap() {
        Acquired::Reconfigure {
            usage,
            format,
            mode,
        } => (usage, format, mode),
        Acquired::Image(_) => panic!("out of date acquires no image"),
    };

    let request = chain
        .configure(usage, format, mode, query(vec![]))
        .unwrap();
    assert_eq!(request.old_swapchain, Some(1), "the old chain links the new one");
    chain
        .install_generation(&request, Ok(native(2, 1, 3)), &mut device)
        .unwrap();

    // The subsequent acquire succeeds without caller intervention.
    let img = acquire(&mut chain, 0);
    assert_eq!(img.handle(), 2);
    assert_eq!(chain.retired_count(), 1, "the superseded generation awaits release");
}

#[test]
fn retired_generations_are_destroyed_only_when_released() {
    let mut device = Device::new(1);
    let mut chain = configured(&mut device);
    let usage = ImageUsage::from_bits(ImageUsage::COLOR_ATTACHMENT);

    // Supersede generation 1 with generation 2.
    let request = chain
        .configure(usage, Format::BGRA8Srgb, PresentMode::Fifo, query(vec![]))
        .unwrap();
    chain
        .install_generation(&request, Ok(native(2, 1, 3)), &mut device)
        .unwrap();
    assert_eq!(chain.retired_count(), 1);

    // Generation 1 still has outstanding references: it must survive.
    let request = chain
        .configure(usage, Format::BGRA8Srgb, PresentMode::Fifo, query(vec![false]))
        .unwrap();
    chain
        .install_generation(&request, Ok(native(3, 2, 3)), &mut device)
        .unwrap();
    assert_eq!(chain.retired_count(), 2);

    // Everything released: the queue drains before generation 3 retires.
    let request = chain
        .configure(usage, Format::BGRA8Srgb, PresentMode::Fifo, query(vec![true, true]))
        .unwrap();
    assert_eq!(request.old_swapchain, Some(3));
    chain
        .install_generation(&request, Ok(native(4, 3, 3)), &mut device)
        .unwrap();
    assert_eq!(chain.retired_count(), 1, "only the freshly superseded generation remains");
}

#[test]
fn presenting_into_a_retired_generation_finds_it() {
    let mut device = Device::new(1);
    let mut chain = configured(&mut device);
    let img = acquire(&mut chain, 0);
    let usage = ImageUsage::from_bits(ImageUsage::COLOR_ATTACHMENT);

    let request = chain
        .configure(usage, Format::BGRA8Srgb, PresentMode::Fifo, query(vec![]))
        .unwrap();
    chain
        .install_generation(&request, Ok(native(2, 1, 3)), &mut device)
        .unwrap();
    assert_eq!(chain.retired_count(), 1);

    // The handle belongs to the retired generation; presenting it must not
    // touch the current one.
    chain.presented(img);
    assert_eq!(chain.acquired_count(), 0);
}

#[test]
fn creation_failure_leaves_the_manager_unconfigured() {
    let mut device = Device::new(1);
    let mut chain = Swapchain::new(caps(2, None), &mut device).unwrap();
    let request = chain
        .configure(
            ImageUsage::from_bits(ImageUsage::COLOR_ATTACHMENT),
            Format::BGRA8Srgb,
            PresentMode::Fifo,
            query(vec![]),
        )
        .unwrap();
    let r = chain.install_generation(&request, Err(SurfaceError::SurfaceLost), &mut device);
    assert_eq!(r, Err(SurfaceError::SurfaceLost));
    assert!(!chain.is_configured());

    // Semaphore exhaustion surfaces as out of memory and stays unconfigured.
    let mut broke = Device::with_budget(1, 1);
    let r = chain.install_generation(&request, Ok(native(1, 0, 3)), &mut broke);
    assert_eq!(
        r,
        Err(SurfaceError::OutOfMemory {
            source: sierra::OutOfMemory
        })
    );
    assert!(!chain.is_configured());
}

#[test]
fn capabilities_are_requeried_by_configure() {
    let mut device = Device::new(1);
    let mut chain = Swapchain::new(caps(2, None), &mut device).unwrap();
    assert_eq!(chain.capabilities().min_image_count, 2);
    chain
        .configure(
            ImageUsage::from_bits(ImageUsage::COLOR_ATTACHMENT),
            Format::BGRA8Srgb,
            PresentMode::Fifo,
            ConfigureQuery {
                device_alive: true,
                capabilities: Ok(caps(3, Some(9))),
                released: vec![],
            },
        )
        .unwrap();
    assert_eq!(chain.capabilities().min_image_count, 3);
    assert_eq!(chain.capabilities().max_image_count, Some(9));
}

#[test]
fn capability_query_errors_pass_through() {
    let mut device = Device::new(1);
    let mut chain = Swapchain::new(caps(2, None), &mut device).unwrap();
    let usage = ImageUsage::from_bits(ImageUsage::COLOR_ATTACHMENT);
    assert_eq!(
        chain.configure(
            usage,
            Format::BGRA8Srgb,
            PresentMode::Fifo,
            ConfigureQuery {
                device_alive: true,
                capabilities: Err(SurfaceError::AlreadyUsed),
                released: vec![],
            },
        ),
        Err(SurfaceError::AlreadyUsed)
    );
    assert_eq!(
        chain.configure(
            usage,
            Format::BGRA8Srgb,
            PresentMode::Fifo,
            ConfigureQuery {
                device_alive: true,
                capabilities: Err(SurfaceError::InitializationFailed),
                released: vec![],
            },
        ),
        Err(SurfaceError::InitializationFailed)
    );
    assert_eq!(
        chain.configure(
            usage,
            Format::BGRA8Srgb,
            PresentMode::Fifo,
            ConfigureQuery {
                device_alive: true,
                capabilities: Err(SurfaceError::WindowIsInUse),
                released: vec![],
            },
        ),
        Err(SurfaceError::WindowIsInUse)
    );
}

#[test]
fn acquire_surface_loss_and_device_memory_errors_surface() {
    let mut device = Device::new(1);
    let mut chain = configured(&mut device);
    chain.acquire_image(false, true).unwrap();
    assert_eq!(
        chain.image_acquired(AcquireOutcome::SurfaceLost),
        Err(SurfaceError::SurfaceLost)
    );
    chain.acquire_image(false, true).unwrap();
    assert_eq!(
        chain.image_acquired(AcquireOutcome::OutOfDeviceMemory),
        Err(SurfaceError::OutOfMemory {
            source: sierra::OutOfMemory
        })
    );
    assert_eq!(chain.acquired_count(), 0, "failed acquires leave the count alone");
}
