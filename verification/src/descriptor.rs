//! Descriptor sets: layouts, bindings, and the per-frame instance that
//! diffs requested bindings against cached state and emits only the
//! descriptor writes that are needed.

use vstd::prelude::*;
use crate::buffer::{Buffer, BufferInfo, BufferRange, BufferUsage};
use crate::device::{DescriptorSet, Device};
use crate::encoder::Encoder;
use crate::image::Layout;
use crate::OutOfMemory;

verus! {

/// One sampler handle.
#[derive(Clone, Copy, Debug, PartialEq, Eq, Structural, Hash)]
pub struct Sampler {
    pub id: u64,
}

/// One image view handle.
#[derive(Clone, Copy, Debug, PartialEq, Eq, Structural, Hash)]
pub struct ImageView {
    pub id: u64,
}

/// One acceleration structure handle.
#[derive(Clone, Copy, Debug, PartialEq, Eq, Structural, Hash)]
pub struct AccelerationStructure {
    pub id: u64,
}

/// An image view together with the layout it is bound in.
#[derive(Clone, Copy, Debug, PartialEq, Eq, Structural, Hash)]
pub struct ImageViewDescriptor {
    pub view: ImageView,
    pub layout: Layout,
}

/// An image view and a sampler bound together, with the view's layout.
#[derive(Clone, Copy, Debug, PartialEq, Eq, Structural, Hash)]
pub struct CombinedImageSampler {
    pub view: ImageView,
    pub sampler: Sampler,
    pub layout: Layout,
}

/// Kind of one descriptor binding.
#[derive(Clone, Copy, Debug, PartialEq, Eq, Structural, Hash)]
pub enum BindingKind {
    Sampler,
    SampledImage,
    CombinedImageSampler,
    UniformBuffer,
    StorageBuffer,
    AccelerationStructure,
}

/// Layout of one descriptor set: its bindings in declaration order, and the
/// byte size of the embedded uniform block if the set has one. The uniform
/// block, when present, sits behind the last binding index.
#[derive(Clone, Debug, PartialEq, Eq, Hash)]
pub struct DescriptorSetLayout {
    pub id: u64,
    pub bindings: Vec<BindingKind>,
    pub uniforms_size: Option<usize>,
}

impl DescriptorSetLayout {
    /// A layout the engine can serve: binding indices, including the uniform
    /// block's, fit the index type of descriptor writes.
    pub open spec fn wf(self) -> bool {
        self.bindings@.len() < u32::MAX
    }
}

/// Info a descriptor set is allocated with: the layout it follows.
#[derive(Clone, Debug, PartialEq, Eq, Hash)]
pub struct DescriptorSetInfo {
    pub layout: DescriptorSetLayout,
}

/// The caller's logical value for one binding, carrying what the binding's
/// resolution service answers for it: the concrete payload it resolves to,
/// or `None` where resolving would fail for want of memory.
#[derive(Clone, Copy, Debug, PartialEq, Eq, Structural, Hash)]
pub enum DescriptorBinding {
    /// A sampler; resolves to itself.
    Sampler { sampler: Sampler },
    /// A sampled image: the view the logical image resource currently
    /// resolves to.
    SampledImage { view: Option<ImageView> },
    /// A sampled image and a sampler bound together.
    CombinedImageSampler { view: Option<ImageView>, sampler: Sampler },
    /// A buffer bound as a uniform buffer.
    UniformBuffer { buffer: BufferBinding },
    /// A buffer bound as a storage buffer.
    StorageBuffer { buffer: BufferBinding },
    /// An acceleration structure; resolves to itself.
    AccelerationStructure { accel: AccelerationStructure },
}

/// The caller's logical value for one buffer binding.
#[derive(Clone, Copy, Debug, PartialEq, Eq, Structural, Hash)]
pub enum BufferBinding {
    /// A whole buffer: resolves to the range covering all of it.
    Whole { buffer: Buffer },
    /// An explicit range: resolves to itself.
    Range { range: BufferRange },
}

/// One resolved descriptor, as cached in an element and as carried by a
/// descriptor write.
#[derive(Clone, Copy, Debug, PartialEq, Eq, Structural, Hash)]
pub enum Descriptor {
    Sampler(Sampler),
    SampledImage(ImageViewDescriptor),
    CombinedImageSampler(CombinedImageSampler),
    UniformBuffer(BufferRange),
    StorageBuffer(BufferRange),
    AccelerationStructure(AccelerationStructure),
}

/// One pending update of a descriptor set's binding, queued for batched
/// application.
#[derive(Clone, Copy, Debug, PartialEq, Eq, Structural, Hash)]
pub struct WriteDescriptorSet {
    /// Set the write targets.
    pub set: DescriptorSet,
    /// Binding index within the set.
    pub binding: u32,
    /// First element of the binding that is written.
    pub element: u32,
    /// Payload written to the binding.
    pub descriptors: Descriptor,
}

/// The range a buffer binding resolves to.
pub open spec fn spec_resolve_range(b: BufferBinding) -> BufferRange {
    match b {
        BufferBinding::Whole { buffer } => BufferRange::spec_whole(buffer),
        BufferBinding::Range { range } => range,
    }
}

/// The descriptor a binding input resolves to, `None` when its resolution
/// service fails.
pub open spec fn spec_resolve(b: DescriptorBinding) -> Option<Descriptor> {
    match b {
        DescriptorBinding::Sampler { sampler } => Some(Descriptor::Sampler(sampler)),
        DescriptorBinding::SampledImage { view } => match view {
            Some(v) => Some(
                Descriptor::SampledImage(
                    ImageViewDescriptor { view: v, layout: Layout::ShaderReadOnlyOptimal },
                ),
            ),
            None => None,
        },
        DescriptorBinding::CombinedImageSampler { view, sampler } => match view {
            Some(v) => Some(
                Descriptor::CombinedImageSampler(
                    CombinedImageSampler {
                        view: v,
                        sampler,
                        layout: Layout::ShaderReadOnlyOptimal,
                    },
                ),
            ),
            None => None,
        },
        DescriptorBinding::UniformBuffer { buffer } => Some(
            Descriptor::UniformBuffer(spec_resolve_range(buffer)),
        ),
        DescriptorBinding::StorageBuffer { buffer } => Some(
            Descriptor::StorageBuffer(spec_resolve_range(buffer)),
        ),
        DescriptorBinding::AccelerationStructure { accel } => Some(
            Descriptor::AccelerationStructure(accel),
        ),
    }
}

/// Kind of a binding input.
pub open spec fn spec_binding_kind(b: DescriptorBinding) -> BindingKind {
    match b {
        DescriptorBinding::Sampler { .. } => BindingKind::Sampler,
        DescriptorBinding::SampledImage { .. } => BindingKind::SampledImage,
        DescriptorBinding::CombinedImageSampler { .. } => BindingKind::CombinedImageSampler,
        DescriptorBinding::UniformBuffer { .. } => BindingKind::UniformBuffer,
        DescriptorBinding::StorageBuffer { .. } => BindingKind::StorageBuffer,
        DescriptorBinding::AccelerationStructure { .. } => BindingKind::AccelerationStructure,
    }
}

/// True when the cached descriptor already equals what the input resolves
/// to, so no write is needed: the binding is clean.
pub open spec fn spec_clean(cached: Option<Descriptor>, b: DescriptorBinding) -> bool {
    match spec_resolve(b) {
        Some(d) => cached == Some(d),
        None => false,
    }
}

/// The write refreshing binding `i` of the set from the input's resolved
/// descriptor.
pub open spec fn spec_binding_write(set: DescriptorSet, i: int, b: DescriptorBinding)
    -> WriteDescriptorSet {
    WriteDescriptorSet { set, binding: i as u32, element: 0, descriptors: spec_resolve(b).unwrap() }
}

/// The writes an update over cached state `cache` emits for the first `i`
/// bindings of `bindings`, in binding order: one write for each binding
/// that is not clean.
pub open spec fn spec_binding_writes(
    set: DescriptorSet,
    cache: Seq<Option<Descriptor>>,
    bindings: Seq<DescriptorBinding>,
    i: int,
) -> Seq<WriteDescriptorSet>
    decreases i,
{
    if i <= 0 {
        Seq::empty()
    } else {
        spec_binding_writes(set, cache, bindings, i - 1) + if spec_clean(
            cache[i - 1],
            bindings[i - 1],
        ) {
            Seq::empty()
        } else {
            seq![spec_binding_write(set, i - 1, bindings[i - 1])]
        }
    }
}

/// The write binding the uniform block's backing range at binding index
/// `n`, emitted only when the range was first allocated.
pub open spec fn spec_uniform_write(set: DescriptorSet, n: int, range: BufferRange)
    -> WriteDescriptorSet {
    WriteDescriptorSet {
        set,
        binding: n as u32,
        element: 0,
        descriptors: Descriptor::UniformBuffer(range),
    }
}

/// One ring slot of a descriptor instance: the underlying set, the cached
/// descriptor last written for every binding, and, when the layout has an
/// embedded uniform block, its current value and backing range.
#[derive(Clone, Debug)]
pub struct DescriptorInstanceElem {
    pub set: DescriptorSet,
    pub descriptors: Vec<Option<Descriptor>>,
    pub uniforms_buffer: Option<(Vec<u8>, BufferRange)>,
}

impl DescriptorInstanceElem {
    /// The underlying descriptor set.
    pub fn raw(&self) -> (r: &DescriptorSet)
        ensures
            *r == self.set,
    {
        &self.set
    }
}

/// True when `e` is a freshly created ring slot: its set has the given
/// identity, and nothing is cached or allocated yet.
pub open spec fn spec_fresh_elem(e: DescriptorInstanceElem, set_id: u64, n: nat) -> bool {
    &&& e.set.id == set_id
    &&& e.descriptors@.len() == n
    &&& forall|i: int| 0 <= i < n ==> e.descriptors@[i] is None
    &&& e.uniforms_buffer is None
}

/// The caller's logical inputs for one update call: a value for every
/// binding in declaration order, and the uniform block's current value when
/// the layout has one.
#[derive(Clone, Debug)]
pub struct DescriptorsInput {
    pub bindings: Vec<DescriptorBinding>,
    pub uniforms: Option<Vec<u8>>,
}

impl DescriptorsInput {
    /// The input names every binding of the layout with the right kind, and
    /// carries the uniform block's bytes exactly when the layout embeds one.
    pub open spec fn matches_layout(self, layout: DescriptorSetLayout) -> bool {
        &&& self.bindings@.len() == layout.bindings@.len()
        &&& forall|i: int|
            0 <= i < layout.bindings@.len() ==> spec_binding_kind(#[trigger] self.bindings@[i])
                == layout.bindings@[i]
        &&& match layout.uniforms_size {
            Some(sz) => self.uniforms matches Some(u) && u@.len() == sz,
            None => self.uniforms is None,
        }
    }

    /// Every binding's resolution service succeeds on this input.
    pub open spec fn spec_resolvable(self) -> bool {
        forall|i: int|
            0 <= i < self.bindings@.len() ==> (#[trigger] spec_resolve(self.bindings@[i])) is Some
    }
}

/// Per-frame instance of one descriptor set declaration: the immutable
/// layout and a ring of elements indexed by the caller's fence index.
///
/// The ring only grows: a slot, once created, keeps its set and its cached
/// state until the instance is dropped.
#[derive(Clone, Debug)]
pub struct DescriptorInstance {
    pub layout: DescriptorSetLayout,
    pub cycle: Vec<DescriptorInstanceElem>,
}

impl DescriptorInstance {
    /// Every ring slot fits the layout.
    pub open spec fn spec_elem_wf(self, e: DescriptorInstanceElem) -> bool {
        &&& e.descriptors@.len() == self.layout.bindings@.len()
        &&& match e.uniforms_buffer {
            Some(ub) => self.layout.uniforms_size matches Some(sz) && ub.0@.len() == sz,
            None => true,
        }
    }

    /// The instance is well formed: its layout is serviceable and every
    /// ring slot fits it.
    pub open spec fn wf(self) -> bool {
        &&& self.layout.wf()
        &&& forall|k: int| 0 <= k < self.cycle@.len() ==> self.spec_elem_wf(#[trigger] self.cycle@[k])
    }

    /// Ring length after serving the given fence index: grown to cover it,
    /// never shrunk.
    pub open spec fn spec_grown_len(self, fence: usize) -> nat {
        if fence + 1 > self.cycle@.len() {
            (fence + 1) as nat
        } else {
            self.cycle@.len()
        }
    }

    /// Number of ring slots an update at `fence` must create.
    pub open spec fn spec_new_slots(self, fence: usize) -> nat {
        if fence + 1 > self.cycle@.len() {
            (fence + 1 - self.cycle@.len()) as nat
        } else {
            0
        }
    }

    /// True when an update at `fence` touches its uniform block for the
    /// first time, so the backing buffer must be allocated and its binding
    /// written.
    pub open spec fn spec_first_touch(self, fence: usize) -> bool {
        self.layout.uniforms_size is Some && (fence >= self.cycle@.len() || self.cycle@[
            fence as int
        ].uniforms_buffer is None)
    }

    /// Number of allocations an update at `fence` asks of the device.
    pub open spec fn spec_needed_allocs(self, fence: usize) -> nat {
        self.spec_new_slots(fence) + if self.spec_first_touch(fence) {
            1nat
        } else {
            0nat
        }
    }

    /// The set the update at `fence` serves: the slot's own set, or the one
    /// freshly allocated for a new slot.
    pub open spec fn spec_target_set(self, dev: Device, fence: usize) -> DescriptorSet {
        if fence < self.cycle@.len() {
            self.cycle@[fence as int].set
        } else {
            DescriptorSet { id: (dev.next_id + (fence - self.cycle@.len())) as u64 }
        }
    }

    /// The backing range of the uniform block after an update at `fence`:
    /// the slot's existing range, or the whole of the freshly created
    /// buffer.
    pub open spec fn spec_uniform_range(self, dev: Device, fence: usize, sz: usize)
        -> BufferRange {
        if fence < self.cycle@.len() && self.cycle@[fence as int].uniforms_buffer is Some {
            self.cycle@[fence as int].uniforms_buffer.unwrap().1
        } else {
            BufferRange::spec_whole(
                Buffer {
                    id: (dev.next_id + self.spec_new_slots(fence)) as u64,
                    info: BufferInfo {
                        align: 255,
                        size: sz as u64,
                        usage: BufferUsage { bits: BufferUsage::UNIFORM | BufferUsage::TRANSFER_DST },
                    },
                },
            )
        }
    }

    /// Cached state the update at `fence` diffs against: the slot's cache,
    /// or all-empty for a slot not created yet.
    pub open spec fn spec_cache_before(self, fence: usize) -> Seq<Option<Descriptor>> {
        if fence < self.cycle@.len() {
            self.cycle@[fence as int].descriptors@
        } else {
            Seq::new(self.layout.bindings@.len(), |i: int| None::<Descriptor>)
        }
    }

    /// The element state a successful update at `fence` leaves behind:
    /// every binding's cache holds the input's resolved descriptor, and the
    /// uniform block holds the input's bytes over a stable backing range.
    pub open spec fn spec_elem_updated(
        self,
        dev: Device,
        input: DescriptorsInput,
        fence: usize,
        e: DescriptorInstanceElem,
    ) -> bool {
        &&& e.set == self.spec_target_set(dev, fence)
        &&& e.descriptors@.len() == self.layout.bindings@.len()
        &&& forall|i: int|
            0 <= i < self.layout.bindings@.len() ==> e.descriptors@[i] == spec_resolve(
                #[trigger] input.bindings@[i],
            )
        &&& match self.layout.uniforms_size {
            Some(sz) => e.uniforms_buffer matches Some(ub) && ub.0@ == input.uniforms.unwrap()@
                && ub.1 == self.spec_uniform_range(dev, fence, sz),
            None => e.uniforms_buffer is None,
        }
    }

    /// The writes a successful update at `fence` appends: the uniform
    /// block's binding on first touch, then one write per dirty binding in
    /// binding order.
    pub open spec fn spec_update_writes(
        self,
        dev: Device,
        input: DescriptorsInput,
        fence: usize,
    ) -> Seq<WriteDescriptorSet> {
        let n = self.layout.bindings@.len() as int;
        let set = self.spec_target_set(dev, fence);
        let bw = spec_binding_writes(set, self.spec_cache_before(fence), input.bindings@, n);
        if self.spec_first_touch(fence) {
            seq![
                spec_uniform_write(set, n, self.spec_uniform_range(dev, fence, self.layout.uniforms_size.unwrap())),
            ] + bw
        } else {
            bw
        }
    }

    /// An instance over the given layout with an empty ring.
    pub fn new(layout: DescriptorSetLayout) -> (r: DescriptorInstance)
        ensures
            r.layout == layout,
            r.cycle@.len() == 0,
    {
        DescriptorInstance { layout, cycle: Vec::new() }
    }

    /// The layout the instance serves.
    pub fn raw_layout(&self) -> (r: &DescriptorSetLayout)
        ensures
            *r == self.layout,
    {
        &self.layout
    }

    /// The ring slot of the given fence index.
    pub fn element(&self, fence: usize) -> (r: &DescriptorInstanceElem)
        requires
            fence < self.cycle@.len(),
        ensures
            *r == self.cycle@[fence as int],
    {
        &self.cycle[fence]
    }

    /// A fresh ring slot: a set allocated against the layout, every cache
    /// slot empty, no uniform buffer yet.
    fn new_cycle_elem(&self, device: &mut Device) -> (r: Result<
        DescriptorInstanceElem,
        OutOfMemory,
    >)
        ensures
            r is Ok <==> old(device).spec_can_alloc(1),
            r matches Ok(e) ==> spec_fresh_elem(e, old(device).next_id, self.layout.bindings@.len())
                && *final(device) == old(device).spec_after_alloc(1),
            r is Err ==> *final(device) == *old(device),
    {
        let set = device.create_descriptor_set(&DescriptorSetInfo { layout: self.layout.clone() })?;
        let n = self.layout.bindings.len();
        let mut descriptors: Vec<Option<Descriptor>> = Vec::new();
        let mut i: usize = 0;
        while i < n
            invariant
                i <= n,
                descriptors@.len() == i,
                forall|j: int| 0 <= j < i ==> descriptors@[j] is None,
            decreases n - i,
        {
            descriptors.push(None);
            i = i + 1;
        }
        Ok(DescriptorInstanceElem { set, descriptors, uniforms_buffer: None })
    }

    /// Serve one frame: grow the ring to cover `fence`, refresh the slot's
    /// uniform block, diff every binding against the slot's cache, and
    /// append one write per binding whose resolved value changed.
    ///
    /// Succeeds exactly when the device serves the allocations the call
    /// needs and every binding resolves; on failure nothing has been
    /// appended to `writes` or recorded in `encoder`, and slots of other
    /// fence indices are untouched.
    #[verifier::loop_isolation(false)]
    pub fn update(
        &mut self,
        input: &DescriptorsInput,
        fence: usize,
        device: &mut Device,
        writes: &mut Vec<WriteDescriptorSet>,
        encoder: &mut Encoder,
    ) -> (r: Result<(), OutOfMemory>)
        requires
            old(self).wf(),
            input.matches_layout(old(self).layout),
            fence < usize::MAX,
        ensures
            final(self).layout == old(self).layout,
            final(self).wf(),
            final(self).cycle@.len() >= old(self).cycle@.len(),
            forall|k: int|
                0 <= k < old(self).cycle@.len() && k != fence ==> final(self).cycle@[k] == old(
                    self,
                ).cycle@[k],
            final(device).id == old(device).id,
            r is Ok <==> (old(device).spec_can_alloc(old(self).spec_needed_allocs(fence))
                && input.spec_resolvable()),
            r is Ok ==> final(self).cycle@.len() == old(self).spec_grown_len(fence),
            r is Ok ==> old(self).spec_elem_updated(
                *old(device),
                *input,
                fence,
                final(self).cycle@[fence as int],
            ),
            r is Ok ==> (forall|k: int|
                old(self).cycle@.len() <= k < final(self).cycle@.len() && k != fence
                    ==> spec_fresh_elem(
                    #[trigger] final(self).cycle@[k],
                    (old(device).next_id + (k - old(self).cycle@.len())) as u64,
                    old(self).layout.bindings@.len(),
                )),
            r is Ok ==> *final(device) == old(device).spec_after_alloc(
                old(self).spec_needed_allocs(fence),
            ),
            r is Ok ==> final(writes)@ == old(writes)@ + old(self).spec_update_writes(
                *old(device),
                *input,
                fence,
            ),
            r is Ok ==> (match old(self).layout.uniforms_size {
                Some(sz) => {
                    let pre_updates = old(encoder).buffer_updates@;
                    let post_updates = final(encoder).buffer_updates@;
                    &&& post_updates.len() == pre_updates.len() + 1
                    &&& (forall|i: int|
                        0 <= i < pre_updates.len() ==> post_updates[i] == pre_updates[i])
                    &&& post_updates.last().buffer == old(self).spec_uniform_range(
                        *old(device),
                        fence,
                        sz,
                    ).buffer
                    &&& post_updates.last().offset == 0
                    &&& post_updates.last().data@ == input.uniforms.unwrap()@
                },
                None => final(encoder).buffer_updates@ == old(encoder).buffer_updates@,
            }),
            final(encoder).image_barriers@ == old(encoder).image_barriers@,
            r is Err ==> final(writes)@ == old(writes)@ && final(encoder).buffer_updates@ == old(
                encoder,
            ).buffer_updates@,
            r is Err && fence < old(self).cycle@.len() ==> final(self).cycle@.len() == old(
                self,
            ).cycle@.len() && (forall|i: int|
                0 <= i < old(self).layout.bindings@.len() ==> final(self).cycle@[
                    fence as int
                ].descriptors@[i] == old(self).cycle@[fence as int].descriptors@[i] || final(self).cycle@[fence as int].descriptors@[i] == spec_resolve(
                    #[trigger] input.bindings@[i],
                )),
    {
        let ghost pre = *self;
        let ghost pre_dev = *device;
        let n = self.layout.bindings.len();

        // Grow the ring until it covers the fence index.
        while self.cycle.len() <= fence
            invariant
                self.layout == pre.layout,
                self.wf(),
                pre.wf(),
                input.matches_layout(pre.layout),
                fence < usize::MAX,
                n == pre.layout.bindings@.len(),
                pre.cycle@.len() <= self.cycle@.len(),
                self.cycle@.len() <= pre.spec_grown_len(fence),
                forall|k: int| 0 <= k < pre.cycle@.len() ==> self.cycle@[k] == pre.cycle@[k],
                forall|k: int|
                    pre.cycle@.len() <= k < self.cycle@.len() ==> spec_fresh_elem(
                        #[trigger] self.cycle@[k],
                        (pre_dev.next_id + (k - pre.cycle@.len())) as u64,
                        n as nat,
                    ),
                pre_dev.spec_can_alloc((self.cycle@.len() - pre.cycle@.len()) as nat),
                *device == pre_dev.spec_after_alloc(
                    (self.cycle@.len() - pre.cycle@.len()) as nat,
                ),
                writes@ == old(writes)@,
                encoder.image_barriers@ == old(encoder).image_barriers@,
                encoder.buffer_updates@ == old(encoder).buffer_updates@,
            decreases fence + 1 - self.cycle@.len(),
        {
            let ghost grown = (self.cycle@.len() - pre.cycle@.len()) as nat;
            let elem = match self.new_cycle_elem(device) {
                Ok(e) => e,
                Err(e) => {
                    proof {
                        let needed = pre.spec_needed_allocs(fence);
                        if pre_dev.spec_can_alloc(needed) {
                            pre_dev.lemma_can_alloc_mono(grown + 1, needed);
                            pre_dev.lemma_alloc_compose(grown, 1);
                        }
                    }
                    return Err(e);
                },
            };
            self.cycle.push(elem);
            proof {
                pre_dev.lemma_alloc_compose(grown, 1);
            }
        }
        proof {
            assert(self.cycle@.len() == pre.spec_grown_len(fence));
            if fence >= pre.cycle@.len() {
                assert(self.cycle@[fence as int].descriptors@ =~= pre.spec_cache_before(fence));
            }
        }
        let ghost cache0 = self.cycle@[fence as int].descriptors@;
        let ghost new_slots = pre.spec_new_slots(fence);

        // Refresh the uniform block: allocate its backing buffer on first
        // touch, copy the caller's bytes in either way.
        let mut write_uniforms = false;
        let uniforms_size = self.layout.uniforms_size;
        match uniforms_size {
            Some(sz) => {
                let u: &Vec<u8> = match &input.uniforms {
                    Some(u) => u,
                    None => {
                        proof {
                            assert(false);
                        }
                        return Err(OutOfMemory);
                    },
                };
                if self.cycle[fence].uniforms_buffer.is_none() {
                    let info = BufferInfo {
                        align: 255,
                        size: sz as u64,
                        usage: BufferUsage::from_bits(
                            BufferUsage::UNIFORM | BufferUsage::TRANSFER_DST,
                        ),
                    };
                    let buffer = match device.create_buffer(info) {
                        Ok(b) => b,
                        Err(e) => {
                            proof {
                                let needed = pre.spec_needed_allocs(fence);
                                if pre_dev.spec_can_alloc(needed) {
                                    pre_dev.lemma_alloc_compose(new_slots, 1);
                                }
                            }
                            return Err(e);
                        },
                    };
                    let data = clone_bytes(u);
                    self.cycle[fence].uniforms_buffer = Some((data, BufferRange::whole(buffer)));
                    write_uniforms = true;
                    proof {
                        pre_dev.lemma_alloc_compose(new_slots, 1);
                    }
                } else {
                    let range = match &self.cycle[fence].uniforms_buffer {
                        Some(ub) => ub.1,
                        None => {
                            proof {
                                assert(false);
                            }
                            return Err(OutOfMemory);
                        },
                    };
                    let data = clone_bytes(u);
                    self.cycle[fence].uniforms_buffer = Some((data, range));
                }
            },
            None => {},
        }

        // Diff every binding against the slot's cache; resolve and cache
        // the changed ones, aborting if a resolution fails.
        let mut dirty: Vec<bool> = Vec::new();
        let mut i: usize = 0;
        while i < n
            invariant
                self.layout == pre.layout,
                self.wf(),
                pre.wf(),
                input.matches_layout(pre.layout),
                fence < usize::MAX,
                n == pre.layout.bindings@.len(),
                i <= n,
                self.cycle@.len() == pre.spec_grown_len(fence),
                fence < self.cycle@.len(),
                forall|k: int|
                    0 <= k < pre.cycle@.len() && k != fence ==> self.cycle@[k] == pre.cycle@[k],
                forall|k: int|
                    pre.cycle@.len() <= k < self.cycle@.len() && k != fence ==> spec_fresh_elem(
                        #[trigger] self.cycle@[k],
                        (pre_dev.next_id + (k - pre.cycle@.len())) as u64,
                        n as nat,
                    ),
                self.cycle@[fence as int].set == pre.spec_target_set(pre_dev, fence),
                self.cycle@[fence as int].descriptors@.len() == n,
                cache0 == pre.spec_cache_before(fence),
                cache0.len() == n,
                write_uniforms == pre.spec_first_touch(fence),
                match pre.layout.uniforms_size {
                    Some(sz) => self.cycle@[fence as int].uniforms_buffer matches Some(ub)
                        && ub.0@ == input.uniforms.unwrap()@ && ub.1 == pre.spec_uniform_range(
                        pre_dev,
                        fence,
                        sz,
                    ),
                    None => self.cycle@[fence as int].uniforms_buffer is None,
                },
                dirty@.len() == i,
                forall|j: int|
                    0 <= j < i ==> dirty@[j] == !spec_clean(
                        cache0[j],
                        #[trigger] input.bindings@[j],
                    ),
                forall|j: int|
                    0 <= j < i ==> self.cycle@[fence as int].descriptors@[j] == spec_resolve(
                        #[trigger] input.bindings@[j],
                    ),
                forall|j: int|
                    0 <= j < i ==> (#[trigger] spec_resolve(input.bindings@[j])) is Some,
                forall|j: int|
                    i <= j < n ==> self.cycle@[fence as int].descriptors@[j] == cache0[j],
                pre_dev.spec_can_alloc(pre.spec_needed_allocs(fence)),
                *device == pre_dev.spec_after_alloc(pre.spec_needed_allocs(fence)),
                writes@ == old(writes)@,
                encoder.image_barriers@ == old(encoder).image_barriers@,
                encoder.buffer_updates@ == old(encoder).buffer_updates@,
            decreases n - i,
        {
            let cached = self.cycle[fence].descriptors[i];
            let binding = input.bindings[i];
            if is_clean(cached, binding) {
                dirty.push(false);
            } else {
                match resolve_binding(binding) {
                    Some(d) => {
                        self.cycle[fence].descriptors.set(i, Some(d));
                        dirty.push(true);
                    },
                    None => {
                        return Err(OutOfMemory);
                    },
                }
            }
            i = i + 1;
        }

        // Append the uniform block's write on first touch, stream its
        // bytes, then append one write per dirty binding.
        let set = self.cycle[fence].set;
        if write_uniforms {
            let range = match &self.cycle[fence].uniforms_buffer {
                Some(ub) => ub.1,
                None => {
                    proof {
                        assert(false);
                    }
                    return Err(OutOfMemory);
                },
            };
            writes.push(
                WriteDescriptorSet {
                    set,
                    binding: n as u32,
                    element: 0,
                    descriptors: Descriptor::UniformBuffer(range),
                },
            );
        }
        if uniforms_size.is_some() {
            match &self.cycle[fence].uniforms_buffer {
                Some(ub) => {
                    encoder.update_buffer(&ub.1.buffer, 0, &ub.0);
                },
                None => {
                    proof {
                        assert(false);
                    }
                },
            }
        }
        let ghost writes_mid = writes@;
        let mut i: usize = 0;
        while i < n
            invariant
                self.layout == pre.layout,
                self.wf(),
                input.matches_layout(pre.layout),
                n == pre.layout.bindings@.len(),
                n < u32::MAX,
                i <= n,
                fence < self.cycle@.len(),
                self.cycle@[fence as int].set == set,
                self.cycle@[fence as int].descriptors@.len() == n,
                cache0.len() == n,
                dirty@.len() == n,
                forall|j: int|
                    0 <= j < n ==> dirty@[j] == !spec_clean(
                        cache0[j],
                        #[trigger] input.bindings@[j],
                    ),
                forall|j: int|
                    0 <= j < n ==> self.cycle@[fence as int].descriptors@[j] == spec_resolve(
                        #[trigger] input.bindings@[j],
                    ),
                forall|j: int|
                    0 <= j < n ==> (#[trigger] spec_resolve(input.bindings@[j])) is Some,
                writes@ == writes_mid + spec_binding_writes(
                    set,
                    cache0,
                    input.bindings@,
                    i as int,
                ),
            decreases n - i,
        {
            if dirty[i] {
                proof {
                    assert(self.cycle@[fence as int].descriptors@[i as int] == spec_resolve(
                        input.bindings@[i as int],
                    ));
                }
                let d = match self.cycle[fence].descriptors[i] {
                    Some(d) => d,
                    None => {
                        proof {
                            assert(false);
                        }
                        return Err(OutOfMemory);
                    },
                };
                writes.push(WriteDescriptorSet { set, binding: i as u32, element: 0, descriptors: d });
            }
            i = i + 1;
        }
        Ok(())
    }
}

/// Over a cache whose first `i` bindings are all clean, no binding write is
/// emitted.
proof fn lemma_binding_writes_all_clean(
    set: DescriptorSet,
    cache: Seq<Option<Descriptor>>,
    bindings: Seq<DescriptorBinding>,
    i: int,
)
    requires
        forall|j: int| 0 <= j < i ==> spec_clean(cache[j], #[trigger] bindings[j]),
    ensures
        spec_binding_writes(set, cache, bindings, i) =~= Seq::<WriteDescriptorSet>::empty(),
    decreases i,
{
    if i > 0 {
        lemma_binding_writes_all_clean(set, cache, bindings, i - 1);
    }
}

/// Over a cache where binding `j` is the only one of the first `i` that is
/// not clean, exactly its write is emitted.
proof fn lemma_binding_writes_single_dirty(
    set: DescriptorSet,
    cache: Seq<Option<Descriptor>>,
    bindings: Seq<DescriptorBinding>,
    j: int,
    i: int,
)
    requires
        0 <= j,
        !spec_clean(cache[j], bindings[j]),
        forall|k: int| 0 <= k < i && k != j ==> spec_clean(cache[k], #[trigger] bindings[k]),
    ensures
        j < i ==> spec_binding_writes(set, cache, bindings, i) =~= seq![
            spec_binding_write(set, j, bindings[j]),
        ],
        i <= j ==> spec_binding_writes(set, cache, bindings, i) =~= Seq::<
            WriteDescriptorSet,
        >::empty(),
    decreases i,
{
    if i > 0 {
        lemma_binding_writes_single_dirty(set, cache, bindings, j, i - 1);
    }
}

/// Law: an update is idempotent under unchanged inputs. A slot that already
/// holds what a successful update with `input` leaves behind — every
/// binding's cache equal to the input's resolved descriptor, the uniform
/// block's buffer allocated — makes every binding clean, so a further
/// update with the same input needs no allocation and emits no write.
pub proof fn lemma_update_idempotent(
    post: DescriptorInstance,
    dev: Device,
    input: DescriptorsInput,
    fence: usize,
)
    requires
        post.wf(),
        fence < post.cycle@.len(),
        input.matches_layout(post.layout),
        input.spec_resolvable(),
        forall|i: int|
            0 <= i < post.layout.bindings@.len() ==> post.cycle@[fence as int].descriptors@[i]
                == spec_resolve(#[trigger] input.bindings@[i]),
        post.layout.uniforms_size is Some ==> post.cycle@[fence as int].uniforms_buffer is Some,
    ensures
        post.spec_needed_allocs(fence) == 0,
        post.spec_update_writes(dev, input, fence) =~= Seq::<WriteDescriptorSet>::empty(),
{
    assert(forall|i: int|
        0 <= i < input.bindings@.len() ==> spec_clean(
            post.spec_cache_before(fence)[i],
            #[trigger] input.bindings@[i],
        ));
    lemma_binding_writes_all_clean(
        post.spec_target_set(dev, fence),
        post.spec_cache_before(fence),
        input.bindings@,
        post.layout.bindings@.len() as int,
    );
}

/// Law: changing exactly one binding changes exactly one write. A slot that
/// holds the resolved descriptors of a previous input, diffed against an
/// input whose resolved value differs at binding `j` alone, emits exactly
/// one write, for binding `j`, carrying its newly resolved descriptor.
pub proof fn lemma_update_single_change(
    post: DescriptorInstance,
    dev: Device,
    input: DescriptorsInput,
    fence: usize,
    j: int,
)
    requires
        post.wf(),
        fence < post.cycle@.len(),
        input.matches_layout(post.layout),
        input.spec_resolvable(),
        0 <= j < post.layout.bindings@.len(),
        forall|i: int|
            0 <= i < post.layout.bindings@.len() && i != j ==> post.cycle@[
                fence as int
            ].descriptors@[i] == spec_resolve(#[trigger] input.bindings@[i]),
        post.cycle@[fence as int].descriptors@[j] != spec_resolve(input.bindings@[j]),
        post.layout.uniforms_size is Some ==> post.cycle@[fence as int].uniforms_buffer is Some,
    ensures
        post.spec_needed_allocs(fence) == 0,
        post.spec_update_writes(dev, input, fence) =~= seq![
            spec_binding_write(post.cycle@[fence as int].set, j, input.bindings@[j]),
        ],
{
    assert(forall|k: int|
        0 <= k < input.bindings@.len() && k != j ==> spec_clean(
            post.spec_cache_before(fence)[k],
            #[trigger] input.bindings@[k],
        ));
    lemma_binding_writes_single_dirty(
        post.spec_target_set(dev, fence),
        post.spec_cache_before(fence),
        input.bindings@,
        j,
        post.layout.bindings@.len() as int,
    );
}

/// The descriptor the binding resolves to, `None` when its resolution
/// service fails.
fn resolve_binding(b: DescriptorBinding) -> (r: Option<Descriptor>)
    ensures
        r == spec_resolve(b),
{
    match b {
        DescriptorBinding::Sampler { sampler } => Some(Descriptor::Sampler(sampler)),
        DescriptorBinding::SampledImage { view } => match view {
            Some(v) => Some(
                Descriptor::SampledImage(
                    ImageViewDescriptor { view: v, layout: Layout::ShaderReadOnlyOptimal },
                ),
            ),
            None => None,
        },
        DescriptorBinding::CombinedImageSampler { view, sampler } => match view {
            Some(v) => Some(
                Descriptor::CombinedImageSampler(
                    CombinedImageSampler { view: v, sampler, layout: Layout::ShaderReadOnlyOptimal },
                ),
            ),
            None => None,
        },
        DescriptorBinding::UniformBuffer { buffer } => match buffer {
            BufferBinding::Whole { buffer } => Some(
                Descriptor::UniformBuffer(BufferRange::whole(buffer)),
            ),
            BufferBinding::Range { range } => Some(Descriptor::UniformBuffer(range)),
        },
        DescriptorBinding::StorageBuffer { buffer } => match buffer {
            BufferBinding::Whole { buffer } => Some(
                Descriptor::StorageBuffer(BufferRange::whole(buffer)),
            ),
            BufferBinding::Range { range } => Some(Descriptor::StorageBuffer(range)),
        },
        DescriptorBinding::AccelerationStructure { accel } => Some(
            Descriptor::AccelerationStructure(accel),
        ),
    }
}

/// True when the cached descriptor already equals what the input resolves
/// to.
fn is_clean(cached: Option<Descriptor>, b: DescriptorBinding) -> (r: bool)
    ensures
        r == spec_clean(cached, b),
{
    match resolve_binding(b) {
        Some(d) => match cached {
            Some(c) => c == d,
            None => false,
        },
        None => false,
    }
}

/// A copy of the given bytes.
fn clone_bytes(v: &Vec<u8>) -> (r: Vec<u8>)
    ensures
        r@ == v@,
{
    let mut r: Vec<u8> = Vec::new();
    let mut i: usize = 0;
    while i < v.len()
        invariant
            i <= v@.len(),
            r@ == v@.take(i as int),
        decreases v@.len() - i,
    {
        r.push(v[i]);
        proof {
            assert(r@ =~= v@.take(i + 1));
        }
        i = i + 1;
    }
    proof {
        assert(r@ =~= v@);
    }
    r
}

} // verus!
