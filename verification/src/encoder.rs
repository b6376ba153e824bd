//! Command recording, modelled as the ordered lists of commands an encoder
//! would submit: image barriers and host-to-buffer updates.

use vstd::prelude::*;
use crate::buffer::Buffer;
use crate::image::ImageMemoryBarrier;
use crate::stage::PipelineStageFlags;

verus! {

/// One recorded image barrier: the stage span it synchronizes and the
/// barrier itself.
#[derive(Clone, Copy, Debug, PartialEq, Eq, Hash)]
pub struct ImageBarrierCommand {
    pub src_stages: PipelineStageFlags,
    pub dst_stages: PipelineStageFlags,
    pub barrier: ImageMemoryBarrier,
}

/// One recorded host-to-buffer update: the target range start and the bytes
/// copied there.
#[derive(Clone, Debug, PartialEq, Eq, Hash)]
pub struct BufferUpdate {
    pub buffer: Buffer,
    pub offset: u64,
    pub data: Vec<u8>,
}

/// Recorder of device commands, in submission order.
#[derive(Clone, Debug)]
pub struct Encoder {
    pub image_barriers: Vec<ImageBarrierCommand>,
    pub buffer_updates: Vec<BufferUpdate>,
}

impl Encoder {
    /// An encoder with nothing recorded.
    pub fn new() -> (r: Encoder)
        ensures
            r.image_barriers@ =~= Seq::<ImageBarrierCommand>::empty(),
            r.buffer_updates@ =~= Seq::<BufferUpdate>::empty(),
    {
        Encoder { image_barriers: Vec::new(), buffer_updates: Vec::new() }
    }

    /// Record one image barrier between the given stage masks.
    pub fn image_barrier(
        &mut self,
        src_stages: PipelineStageFlags,
        dst_stages: PipelineStageFlags,
        barrier: ImageMemoryBarrier,
    )
        ensures
            final(self).image_barriers@ == old(self).image_barriers@.push(
                ImageBarrierCommand { src_stages, dst_stages, barrier },
            ),
            final(self).buffer_updates@ == old(self).buffer_updates@,
    {
        self.image_barriers.push(ImageBarrierCommand { src_stages, dst_stages, barrier });
    }

    /// Record one update copying the given bytes into the buffer at the
    /// given offset.
    pub fn update_buffer(&mut self, buffer: &Buffer, offset: u64, data: &Vec<u8>)
        ensures
            final(self).buffer_updates@.len() == old(self).buffer_updates@.len() + 1,
            forall|i: int|
                0 <= i < old(self).buffer_updates@.len() ==> final(self).buffer_updates@[i]
                    == old(self).buffer_updates@[i],
            final(self).buffer_updates@.last().buffer == *buffer,
            final(self).buffer_updates@.last().offset == offset,
            final(self).buffer_updates@.last().data@ == data@,
            final(self).image_barriers@ == old(self).image_barriers@,
    {
        self.buffer_updates.push(BufferUpdate { buffer: *buffer, offset, data: data.clone() });
    }
}

} // verus!
