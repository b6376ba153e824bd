use sierra::buffer::{Buffer, BufferInfo, BufferRange, BufferUsage};
use sierra::descriptor::{
    AccelerationStructure, BindingKind, BufferBinding, Descriptor, DescriptorBinding,
    DescriptorInstance, DescriptorSetLayout, DescriptorsInput, ImageView, Sampler,
};
use sierra::device::Device;
use sierra::encoder::Encoder;

fn layout(bindings: Vec<BindingKind>, uniforms_size: Option<usize>) -> DescriptorSetLayout {
    DescriptorSetLayout {
        id: 7,
        bindings,
        uniforms_size,
    }
}

fn buffer(id: u64, size: u64) -> Buffer {
    Buffer {
        id,
        info: BufferInfo {
            align: 255,
            size,
            usage: BufferUsage::from_bits(BufferUsage::UNIFORM),
        },
    }
}

fn full_input(view: u64, sampler: u64, buf: Buffer) -> DescriptorsInput {
    DescriptorsInput {
        bindings: vec![
            DescriptorBinding::Sampler {
                sampler: Sampler { id: sampler },
            },
            DescriptorBinding::SampledImage {
                view: Some(ImageView { id: view }),
            },
            DescriptorBinding::CombinedImageSampler {
                view: Some(ImageView { id: view }),
                sampler: Sampler { id: sampler },
            },
            DescriptorBinding::UniformBuffer {
                buffer: BufferBinding::Whole { buffer: buf },
            },
            DescriptorBinding::StorageBuffer {
                buffer: BufferBinding::Range {
                    range: BufferRange {
                        buffer: buf,
                        offset: 16,
                        size: 32,
                    },
                },
            },
            DescriptorBinding::AccelerationStructure {
                accel: AccelerationStructure { id: 99 },
            },
        ],
        uniforms: None,
    }
}

fn full_layout() -> DescriptorSetLayout {
    layout(
        vec![
            BindingKind::Sampler,
            BindingKind::SampledImage,
            BindingKind::CombinedImageSampler,
            BindingKind::UniformBuffer,
            BindingKind::StorageBuffer,
            BindingKind::AccelerationStructure,
        ],
        None,
    )
}

#[test]
fn first_update_writes_every_binding_in_order() {
    let mut instance = DescriptorInstance::new(full_layout());
    let mut device = Device::new(1);
    let mut writes = Vec::new();
    let mut encoder = Encoder::new();
    let input = full_input(10, 20, buffer(30, 256));

    instance
        .update(&input, 0, &mut device, &mut writes, &mut encoder)
        .unwrap();

    assert_eq!(writes.len(), 6);
    for (i, w) in writes.iter().enumerate() {
        assert_eq!(w.binding, i as u32);
        assert_eq!(w.element, 0);
    }
    match writes[3].descriptors {
        Descriptor::UniformBuffer(range) => {
            assert_eq!(range.buffer.id, 30);
            assert_eq!(range.offset, 0);
            assert_eq!(range.size, 256);
        }
        _ => panic!("binding 3 must carry a uniform buffer range"),
    }
    match writes[4].descriptors {
        Descriptor::StorageBuffer(range) => {
            assert_eq!(range.offset, 16);
            assert_eq!(range.size, 32);
        }
        _ => panic!("binding 4 must carry a storage buffer range"),
    }
}

#[test]
fn second_update_with_same_input_emits_nothing() {
    let mut instance = DescriptorInstance::new(full_layout());
    let mut device = Device::new(1);
    let mut writes = Vec::new();
    let mut encoder = Encoder::new();
    let input = full_input(10, 20, buffer(30, 256));

    instance
        .update(&input, 0, &mut device, &mut writes, &mut encoder)
        .unwrap();
    let after_first = writes.len();
    instance
        .update(&input, 0, &mut device, &mut writes, &mut encoder)
        .unwrap();

    assert_eq!(writes.len(), after_first);
}

#[test]
fn changing_one_binding_emits_exactly_its_write() {
    let mut instance = DescriptorInstance::new(full_layout());
    let mut device = Device::new(1);
    let mut writes = Vec::new();
    let mut encoder = Encoder::new();
    let input = full_input(10, 20, buffer(30, 256));
    instance
        .update(&input, 0, &mut device, &mut writes, &mut encoder)
        .unwrap();

    let before = instance.element(0).descriptors.clone();
    let mut changed = full_input(10, 20, buffer(30, 256));
    changed.bindings[1] = DescriptorBinding::SampledImage {
        view: Some(ImageView { id: 11 }),
    };
    writes.clear();
    instance
        .update(&changed, 0, &mut device, &mut writes, &mut encoder)
        .unwrap();

    assert_eq!(writes.len(), 1);
    assert_eq!(writes[0].binding, 1);
    let after = &instance.element(0).descriptors;
    for i in 0..6 {
        if i != 1 {
            assert_eq!(before[i], after[i]);
        }
    }
}

#[test]
fn whole_buffer_and_equal_range_are_the_same_binding() {
    let mut instance = DescriptorInstance::new(layout(vec![BindingKind::UniformBuffer], None));
    let mut device = Device::new(1);
    let mut writes = Vec::new();
    let mut encoder = Encoder::new();
    let b = buffer(5, 128);

    let whole = DescriptorsInput {
        bindings: vec![DescriptorBinding::UniformBuffer {
            buffer: BufferBinding::Whole { buffer: b },
        }],
        uniforms: None,
    };
    instance
        .update(&whole, 0, &mut device, &mut writes, &mut encoder)
        .unwrap();
    assert_eq!(writes.len(), 1);

    let range = DescriptorsInput {
        bindings: vec![DescriptorBinding::UniformBuffer {
            buffer: BufferBinding::Range {
                range: BufferRange {
                    buffer: b,
                    offset: 0,
                    size: 128,
                },
            },
        }],
        uniforms: None,
    };
    instance
        .update(&range, 0, &mut device, &mut writes, &mut encoder)
        .unwrap();
    assert_eq!(writes.len(), 1, "an equal resolved range must not be dirty");
}

#[test]
fn fence_indices_are_independent() {
    let mut instance = DescriptorInstance::new(full_layout());
    let mut device = Device::new(1);
    let mut writes = Vec::new();
    let mut encoder = Encoder::new();
    let input0 = full_input(10, 20, buffer(30, 256));
    let input1 = full_input(77, 88, buffer(90, 64));

    instance
        .update(&input0, 0, &mut device, &mut writes, &mut encoder)
        .unwrap();
    let slot0 = instance.element(0).descriptors.clone();

    writes.clear();
    instance
        .update(&input1, 1, &mut device, &mut writes, &mut encoder)
        .unwrap();

    assert_eq!(writes.len(), 6, "slot 1 starts empty and caches nothing from slot 0");
    assert_eq!(slot0, instance.element(0).descriptors, "slot 0 is untouched");
}

#[test]
fn ring_grows_to_fence_and_never_shrinks() {
    let mut instance = DescriptorInstance::new(full_layout());
    let mut device = Device::new(1);
    let mut writes = Vec::new();
    let mut encoder = Encoder::new();
    let input = full_input(10, 20, buffer(30, 256));

    instance
        .update(&input, 4, &mut device, &mut writes, &mut encoder)
        .unwrap();
    assert_eq!(instance.cycle.len(), 5);

    let set_ids: Vec<u64> = instance.cycle.iter().map(|e| e.set.id).collect();
    instance
        .update(&input, 1, &mut device, &mut writes, &mut encoder)
        .unwrap();
    assert_eq!(instance.cycle.len(), 5, "serving a lower fence never truncates");
    let set_ids_after: Vec<u64> = instance.cycle.iter().map(|e| e.set.id).collect();
    assert_eq!(set_ids, set_ids_after);
}

#[test]
fn uniform_buffer_is_allocated_once_and_streams_every_frame() {
    let mut instance = DescriptorInstance::new(layout(vec![BindingKind::Sampler], Some(4)));
    let mut device = Device::new(1);
    let mut writes = Vec::new();
    let mut encoder = Encoder::new();

    let mut first_range = None;
    for frame in 0..10u8 {
        let input = DescriptorsInput {
            bindings: vec![DescriptorBinding::Sampler {
                sampler: Sampler { id: 3 },
            }],
            uniforms: Some(vec![frame, frame, 0, 1]),
        };
        instance
            .update(&input, 0, &mut device, &mut writes, &mut encoder)
            .unwrap();
        let (_, range) = instance.element(0).uniforms_buffer.as_ref().unwrap();
        match first_range {
            None => first_range = Some(*range),
            Some(r) => assert_eq!(r, *range, "the backing buffer must be stable"),
        }
    }

    let uniform_writes: Vec<_> = writes
        .iter()
        .filter(|w| matches!(w.descriptors, Descriptor::UniformBuffer(_)) && w.binding == 1)
        .collect();
    assert_eq!(uniform_writes.len(), 1, "the uniform binding is written only on first touch");

    assert_eq!(encoder.buffer_updates.len(), 10, "the content streams every frame");
    for (frame, update) in encoder.buffer_updates.iter().enumerate() {
        assert_eq!(update.offset, 0);
        assert_eq!(update.data, vec![frame as u8, frame as u8, 0, 1]);
    }
}

#[test]
fn uniform_write_comes_first_and_carries_the_last_binding_index() {
    let mut instance = DescriptorInstance::new(layout(vec![BindingKind::Sampler], Some(4)));
    let mut device = Device::new(1);
    let mut writes = Vec::new();
    let mut encoder = Encoder::new();
    let input = DescriptorsInput {
        bindings: vec![DescriptorBinding::Sampler {
            sampler: Sampler { id: 3 },
        }],
        uniforms: Some(vec![1, 2, 3, 4]),
    };

    instance
        .update(&input, 0, &mut device, &mut writes, &mut encoder)
        .unwrap();

    assert_eq!(writes.len(), 2);
    assert_eq!(writes[0].binding, 1, "the uniform block sits behind the last binding index");
    assert!(matches!(writes[0].descriptors, Descriptor::UniformBuffer(_)));
    assert_eq!(writes[1].binding, 0);
}

#[test]
fn failed_resolution_aborts_without_writes() {
    let mut instance = DescriptorInstance::new(layout(vec![BindingKind::SampledImage], None));
    let mut device = Device::new(1);
    let mut writes = Vec::new();
    let mut encoder = Encoder::new();
    let input = DescriptorsInput {
        bindings: vec![DescriptorBinding::SampledImage { view: None }],
        uniforms: None,
    };

    let r = instance.update(&input, 0, &mut device, &mut writes, &mut encoder);
    assert!(r.is_err());
    assert!(writes.is_empty());
    assert!(encoder.buffer_updates.is_empty());
}

#[test]
fn exhausted_device_fails_the_update() {
    let mut instance = DescriptorInstance::new(full_layout());
    let mut device = Device::with_budget(1, 0);
    let mut writes = Vec::new();
    let mut encoder = Encoder::new();
    let input = full_input(10, 20, buffer(30, 256));

    let r = instance.update(&input, 0, &mut device, &mut writes, &mut encoder);
    assert!(r.is_err());
    assert!(writes.is_empty());
}

#[test]
fn raw_layout_and_raw_set_are_exposed() {
    let mut instance = DescriptorInstance::new(full_layout());
    assert_eq!(instance.raw_layout().id, 7);
    let mut device = Device::new(1);
    let mut writes = Vec::new();
    let mut encoder = Encoder::new();
    let input = full_input(1, 2, buffer(3, 8));
    instance
        .update(&input, 0, &mut device, &mut writes, &mut encoder)
        .unwrap();
    assert_eq!(instance.element(0).raw().id, 1, "the first allocation backs the first slot");
}

#[test]
fn combined_image_sampler_is_dirty_when_either_part_changes() {
    let mut instance = DescriptorInstance::new(layout(vec![BindingKind::CombinedImageSampler], None));
    let mut device = Device::new(1);
    let mut writes = Vec::new();
    let mut encoder = Encoder::new();

    let input = DescriptorsInput {
        bindings: vec![DescriptorBinding::CombinedImageSampler {
            view: Some(ImageView { id: 1 }),
            sampler: Sampler { id: 2 },
        }],
        uniforms: None,
    };
    instance
        .update(&input, 0, &mut device, &mut writes, &mut encoder)
        .unwrap();
    assert_eq!(writes.len(), 1);

    // Same view, different sampler: dirty.
    let input = DescriptorsInput {
        bindings: vec![DescriptorBinding::CombinedImageSampler {
            view: Some(ImageView { id: 1 }),
            sampler: Sampler { id: 3 },
        }],
        uniforms: None,
    };
    instance
        .update(&input, 0, &mut device, &mut writes, &mut encoder)
        .unwrap();
    assert_eq!(writes.len(), 2);

    // Unchanged: clean.
    instance
        .update(&input, 0, &mut device, &mut writes, &mut encoder)
        .unwrap();
    assert_eq!(writes.len(), 2);
}

#[test]
fn aborted_update_keeps_earlier_resolutions_but_emits_nothing() {
    let mut instance = DescriptorInstance::new(layout(
        vec![BindingKind::Sampler, BindingKind::SampledImage],
        None,
    ));
    let mut device = Device::new(1);
    let mut writes = Vec::new();
    let mut encoder = Encoder::new();

    let good = DescriptorsInput {
        bindings: vec![
            DescriptorBinding::Sampler {
                sampler: Sampler { id: 1 },
            },
            DescriptorBinding::SampledImage {
                view: Some(ImageView { id: 2 }),
            },
        ],
        uniforms: None,
    };
    instance
        .update(&good, 0, &mut device, &mut writes, &mut encoder)
        .unwrap();
    writes.clear();

    // The sampler changes and the image's resolution fails: the call
    // aborts after caching the sampler, with no write emitted.
    let bad = DescriptorsInput {
        bindings: vec![
            DescriptorBinding::Sampler {
                sampler: Sampler { id: 9 },
            },
            DescriptorBinding::SampledImage { view: None },
        ],
        uniforms: None,
    };
    assert!(instance
        .update(&bad, 0, &mut device, &mut writes, &mut encoder)
        .is_err());
    assert!(writes.is_empty());
    assert_eq!(
        instance.element(0).descriptors[0],
        Some(Descriptor::Sampler(Sampler { id: 9 }))
    );
}
