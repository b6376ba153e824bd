use sierra::access::AccessFlags;
use sierra::device::Device;
use sierra::encoder::Encoder;
use sierra::format::{AspectFlags, Format};
use sierra::image::{
    Image, ImageExtent, ImageInfo, ImageSubresourceRange, ImageSubresourceState, ImageUsage,
    Layout, LayoutTransition, Samples, Subresource, SubresourceLayers, SubresourceRange,
};
use sierra::memory::{MemoryBarrier, MemoryUsage};
use sierra::queue::{Ownership, QueueId};
use sierra::stage::PipelineStageFlags;
use sierra::surface::RawWindowHandleKind;
use sierra::{Extent2d, Extent3d};

fn image_info() -> ImageInfo {
    ImageInfo {
        extent: ImageExtent::D2 {
            width: 64,
            height: 32,
        },
        format: Format::RGBA8Unorm,
        levels: 4,
        layers: 2,
        samples: Samples::Samples1,
        usage: ImageUsage::from_bits(ImageUsage::SAMPLED | ImageUsage::TRANSFER_DST),
    }
}

#[test]
fn usage_flag_queries() {
    let color = ImageUsage::from_bits(ImageUsage::COLOR_ATTACHMENT);
    assert!(color.is_render_target());
    assert!(color.is_render_target_only());
    assert!(!color.is_read_only());

    let sampled_color =
        ImageUsage::from_bits(ImageUsage::COLOR_ATTACHMENT | ImageUsage::SAMPLED);
    assert!(sampled_color.is_render_target());
    assert!(!sampled_color.is_render_target_only());

    let read_only = ImageUsage::from_bits(ImageUsage::SAMPLED | ImageUsage::TRANSFER_SRC);
    assert!(!read_only.is_render_target());
    assert!(read_only.is_read_only());

    assert!(ImageUsage::empty().is_read_only());
}

#[test]
fn extent_conversions_fill_missing_dimensions_with_one() {
    let d1 = ImageExtent::D1 { width: 9 };
    assert_eq!(
        d1.into_3d(),
        Extent3d {
            width: 9,
            height: 1,
            depth: 1
        }
    );
    assert_eq!(d1.into_2d(), Extent2d { width: 9, height: 1 });

    let d3 = ImageExtent::D3 {
        width: 2,
        height: 3,
        depth: 4,
    };
    assert_eq!(
        d3.into_3d(),
        Extent3d {
            width: 2,
            height: 3,
            depth: 4
        }
    );
    assert_eq!(d3.into_2d(), Extent2d { width: 2, height: 3 });
}

#[test]
fn extents_convert_and_compare_across_types() {
    let e2 = Extent2d {
        width: 10,
        height: 20,
    };
    let e3 = Extent3d {
        width: 1,
        height: 2,
        depth: 3,
    };
    assert_eq!(
        ImageExtent::from(e2),
        ImageExtent::D2 {
            width: 10,
            height: 20
        }
    );
    assert_eq!(
        ImageExtent::from(e3),
        ImageExtent::D3 {
            width: 1,
            height: 2,
            depth: 3
        }
    );
    assert!(ImageExtent::from(e2) == e2);
    assert!(e2 == ImageExtent::from(e2));
    assert!(ImageExtent::from(e3) == e3);
    assert!(e3 == ImageExtent::from(e3));
    assert!(ImageExtent::D1 { width: 10 } != e2);
}

#[test]
fn format_aspects() {
    assert_eq!(Format::RGBA8Unorm.aspect_flags().bits, AspectFlags::COLOR);
    assert_eq!(Format::D16Unorm.aspect_flags().bits, AspectFlags::DEPTH);
    assert_eq!(Format::S8Uint.aspect_flags().bits, AspectFlags::STENCIL);
    assert_eq!(
        Format::D24UnormS8Uint.aspect_flags().bits,
        AspectFlags::DEPTH | AspectFlags::STENCIL
    );
}

#[test]
fn subresource_range_constructors() {
    let r = SubresourceRange::new(AspectFlags::from_bits(AspectFlags::COLOR), 1..3, 0..2);
    assert_eq!(r.first_level, 1);
    assert_eq!(r.level_count, 2);
    assert_eq!(r.first_layer, 0);
    assert_eq!(r.layer_count, 2);

    let whole = SubresourceRange::whole(&image_info());
    assert_eq!(whole.aspect.bits, AspectFlags::COLOR);
    assert_eq!(whole.first_level, 0);
    assert_eq!(whole.level_count, 4);
    assert_eq!(whole.first_layer, 0);
    assert_eq!(whole.layer_count, 2);

    assert_eq!(
        SubresourceRange::depth_stencil(0..1, 0..1).aspect.bits,
        AspectFlags::DEPTH | AspectFlags::STENCIL
    );
    assert_eq!(SubresourceRange::depth(0..1, 0..1).aspect.bits, AspectFlags::DEPTH);
    assert_eq!(SubresourceRange::stencil(0..1, 0..1).aspect.bits, AspectFlags::STENCIL);
    assert_eq!(SubresourceRange::color(0..1, 0..1).aspect.bits, AspectFlags::COLOR);
}

#[test]
fn subresource_layers_and_single_subresource() {
    let layers = SubresourceLayers::all_layers(&image_info(), 2);
    assert_eq!(layers.level, 2);
    assert_eq!(layers.first_layer, 0);
    assert_eq!(layers.layer_count, 2);

    assert_eq!(SubresourceLayers::color(0, 0..1).aspect.bits, AspectFlags::COLOR);
    assert_eq!(
        SubresourceLayers::depth_stencil(1, 0..2).aspect.bits,
        AspectFlags::DEPTH | AspectFlags::STENCIL
    );

    let sub = Subresource::from_info(&image_info(), 3, 1);
    assert_eq!(sub.aspect.bits, AspectFlags::COLOR);
    assert_eq!(sub.level, 3);
    assert_eq!(sub.layer, 1);
    assert_eq!(Subresource::stencil(0, 0).aspect.bits, AspectFlags::STENCIL);
    assert_eq!(Subresource::depth(0, 0).aspect.bits, AspectFlags::DEPTH);
    assert_eq!(Subresource::color(0, 0).aspect.bits, AspectFlags::COLOR);
}

#[test]
fn layout_transitions_cover_the_whole_image() {
    let image = Image::new(5, image_info());
    let t = LayoutTransition::transition_whole(
        &image,
        AccessFlags::from_bits(AccessFlags::TRANSFER_WRITE)
            ..AccessFlags::from_bits(AccessFlags::SHADER_READ),
        Layout::TransferDstOptimal..Layout::ShaderReadOnlyOptimal,
    );
    assert_eq!(t.old_layout, Some(Layout::TransferDstOptimal));
    assert_eq!(t.new_layout, Layout::ShaderReadOnlyOptimal);
    assert_eq!(t.old_access.bits, AccessFlags::TRANSFER_WRITE);
    assert_eq!(t.new_access.bits, AccessFlags::SHADER_READ);
    assert_eq!(t.range.level_count, 4);

    let init = LayoutTransition::initialize_whole(
        &image,
        AccessFlags::from_bits(AccessFlags::COLOR_ATTACHMENT_WRITE),
        Layout::ColorAttachmentOptimal,
    );
    assert_eq!(init.old_layout, None);
    assert!(init.old_access.bits == 0);
}

#[test]
fn access_records_a_barrier_and_advances_the_state() {
    let image = Image::new(5, image_info());
    let mut state = ImageSubresourceState {
        subresource: ImageSubresourceRange {
            image,
            range: SubresourceRange::whole(&image_info()),
        },
        access: AccessFlags::from_bits(AccessFlags::TRANSFER_WRITE),
        stages: PipelineStageFlags::from_bits(PipelineStageFlags::TRANSFER),
        layout: Some(Layout::TransferDstOptimal),
        family: Ownership::Owned { family: 0 },
    };
    let mut encoder = Encoder::new();
    state.access(
        AccessFlags::from_bits(AccessFlags::SHADER_READ),
        PipelineStageFlags::from_bits(PipelineStageFlags::FRAGMENT_SHADER),
        Layout::ShaderReadOnlyOptimal,
        QueueId {
            family: 0,
            index: 0,
        },
        &mut encoder,
    );

    assert_eq!(encoder.image_barriers.len(), 1);
    let cmd = &encoder.image_barriers[0];
    assert_eq!(cmd.src_stages.bits, PipelineStageFlags::TRANSFER);
    assert_eq!(cmd.dst_stages.bits, PipelineStageFlags::FRAGMENT_SHADER);
    assert_eq!(cmd.barrier.old_layout, Some(Layout::TransferDstOptimal));
    assert_eq!(cmd.barrier.new_layout, Layout::ShaderReadOnlyOptimal);
    assert_eq!(cmd.barrier.family_transfer, None);
    assert_eq!(state.access.bits, AccessFlags::SHADER_READ);
    assert_eq!(state.layout, Some(Layout::ShaderReadOnlyOptimal));
}

#[test]
fn ownership_transition_is_carried_into_the_barrier() {
    let image = Image::new(5, image_info());
    let mut state = ImageSubresourceState {
        subresource: ImageSubresourceRange {
            image,
            range: SubresourceRange::whole(&image_info()),
        },
        access: AccessFlags::empty(),
        stages: PipelineStageFlags::from_bits(PipelineStageFlags::TOP_OF_PIPE),
        layout: None,
        family: Ownership::Transition { from: 1, to: 2 },
    };
    let mut encoder = Encoder::new();
    state.access(
        AccessFlags::from_bits(AccessFlags::SHADER_READ),
        PipelineStageFlags::from_bits(PipelineStageFlags::COMPUTE_SHADER),
        Layout::General,
        QueueId {
            family: 2,
            index: 0,
        },
        &mut encoder,
    );
    assert_eq!(encoder.image_barriers[0].barrier.family_transfer, Some((1, 2)));
    assert_eq!(state.family, Ownership::Transition { from: 1, to: 2 });
}

#[test]
fn overwrite_discards_previous_content_and_takes_ownership() {
    let image = Image::new(5, image_info());
    let mut state = ImageSubresourceState {
        subresource: ImageSubresourceRange {
            image,
            range: SubresourceRange::whole(&image_info()),
        },
        access: AccessFlags::from_bits(AccessFlags::SHADER_READ),
        stages: PipelineStageFlags::from_bits(PipelineStageFlags::FRAGMENT_SHADER),
        layout: Some(Layout::ShaderReadOnlyOptimal),
        family: Ownership::NotOwned,
    };
    let mut encoder = Encoder::new();
    let sub = state.overwrite(
        AccessFlags::from_bits(AccessFlags::TRANSFER_WRITE),
        PipelineStageFlags::from_bits(PipelineStageFlags::TRANSFER),
        Layout::TransferDstOptimal,
        QueueId {
            family: 3,
            index: 0,
        },
        &mut encoder,
    );
    assert_eq!(sub.image.id, 5);
    let cmd = &encoder.image_barriers[0];
    assert_eq!(cmd.barrier.old_layout, None, "previous content is discarded");
    assert!(cmd.barrier.old_access.bits == 0);
    assert_eq!(state.family, Ownership::Owned { family: 3 });
    assert_eq!(state.layout, Some(Layout::TransferDstOptimal));
}

#[test]
fn memory_flags_and_barriers() {
    let usage = MemoryUsage::from_bits(MemoryUsage::UPLOAD | MemoryUsage::TRANSIENT);
    assert!(usage.intersects(MemoryUsage::from_bits(MemoryUsage::UPLOAD)));
    assert!(!usage.intersects(MemoryUsage::from_bits(MemoryUsage::DOWNLOAD)));

    let barrier = MemoryBarrier {
        src: AccessFlags::from_bits(AccessFlags::TRANSFER_WRITE),
        dst: AccessFlags::from_bits(AccessFlags::SHADER_READ),
    };
    assert!(barrier.src.intersects(AccessFlags::from_bits(AccessFlags::TRANSFER_WRITE)));
    assert!(barrier.dst.contains(AccessFlags::from_bits(AccessFlags::SHADER_READ)));
}

#[test]
fn device_budget_bounds_allocations() {
    let mut device = Device::with_budget(9, 1);
    assert!(device.create_semaphore().is_ok());
    assert!(device.create_semaphore().is_err());

    let mut device = Device::new(9);
    let a = device.create_semaphore().unwrap();
    let b = device.create_semaphore().unwrap();
    assert_ne!(a.id, b.id, "allocations hand out distinct identities");
}

#[test]
fn window_handle_kinds_are_told_apart() {
    let xlib = raw_window_handle::unix::XlibHandle::empty();
    let kind = RawWindowHandleKind::of(&raw_window_handle::RawWindowHandle::Xlib(xlib));
    assert_eq!(kind, RawWindowHandleKind::Xlib);

    let wayland = raw_window_handle::unix::WaylandHandle::empty();
    let kind = RawWindowHandleKind::of(&raw_window_handle::RawWindowHandle::Wayland(wayland));
    assert_eq!(kind, RawWindowHandleKind::Wayland);

    let xcb = raw_window_handle::unix::XcbHandle::empty();
    let kind = RawWindowHandleKind::of(&raw_window_handle::RawWindowHandle::Xcb(xcb));
    assert_eq!(kind, RawWindowHandleKind::Xcb);
}
