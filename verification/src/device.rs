//! The device allocation service, modelled by the part of its contract the
//! logic here relies on: it hands out distinct identities for semaphores,
//! descriptor sets and buffers, and any allocation may fail.
//!
//! A budget can bound how many allocations still succeed, so callers (and
//! tests) can drive every out-of-memory path.

use vstd::prelude::*;
use crate::buffer::{Buffer, BufferInfo};
use crate::descriptor::DescriptorSetInfo;
use crate::OutOfMemory;

verus! {

/// One semaphore handle.
#[derive(Clone, Copy, Debug, PartialEq, Eq, Structural, Hash)]
pub struct Semaphore {
    pub id: u64,
}

/// One descriptor set handle.
#[derive(Clone, Copy, Debug, PartialEq, Eq, Structural, Hash)]
pub struct DescriptorSet {
    pub id: u64,
}

/// Allocation state of one device: the next fresh identity, and how many
/// allocations may still succeed.
#[derive(Clone, Copy, Debug, PartialEq, Eq, Structural, Hash)]
pub struct Device {
    /// Identity of the device itself.
    pub id: u64,
    /// Identity the next successful allocation returns.
    pub next_id: u64,
    /// Number of allocations that may still succeed; `None` means
    /// allocations are not bounded by a budget.
    pub budget: Option<u32>,
}

impl Device {
    /// True when `n` more allocations succeed from this state.
    pub open spec fn spec_can_alloc(self, n: nat) -> bool {
        &&& match self.budget {
            Some(b) => b >= n,
            None => true,
        }
        &&& self.next_id + n <= u64::MAX
    }

    /// The state after `n` successful allocations.
    pub open spec fn spec_after_alloc(self, n: nat) -> Device {
        Device {
            id: self.id,
            next_id: (self.next_id + n) as u64,
            budget: match self.budget {
                Some(b) => Some((b - n) as u32),
                None => None,
            },
        }
    }

    /// A device with the given identity and no allocation bound.
    pub fn new(id: u64) -> (r: Device)
        ensures
            r.id == id,
            r.next_id == 1,
            r.budget is None,
    {
        Device { id, next_id: 1, budget: None }
    }

    /// A device with the given identity whose next `allocations` allocations
    /// succeed and whose later ones fail.
    pub fn with_budget(id: u64, allocations: u32) -> (r: Device)
        ensures
            r.id == id,
            r.next_id == 1,
            r.budget == Some(allocations),
    {
        Device { id, next_id: 1, budget: Some(allocations) }
    }

    /// Fewer allocations succeed whenever more do.
    pub proof fn lemma_can_alloc_mono(self, a: nat, b: nat)
        requires
            a <= b,
            self.spec_can_alloc(b),
        ensures
            self.spec_can_alloc(a),
    {
    }

    /// Splitting a run of allocations: `a + b` allocations succeed exactly
    /// when the first `a` succeed and `b` more succeed from the state they
    /// leave, and the state after the run is reached in either one step or
    /// two.
    pub proof fn lemma_alloc_compose(self, a: nat, b: nat)
        ensures
            self.spec_can_alloc(a + b) <==> (self.spec_can_alloc(a) && self.spec_after_alloc(
                a,
            ).spec_can_alloc(b)),
            self.spec_can_alloc(a + b) ==> self.spec_after_alloc(a).spec_after_alloc(b)
                == self.spec_after_alloc(a + b),
    {
    }

    /// One allocation: a fresh identity, or the out-of-memory failure.
    fn alloc_id(&mut self) -> (r: Result<u64, OutOfMemory>)
        ensures
            r is Ok <==> old(self).spec_can_alloc(1),
            r matches Ok(id) ==> id == old(self).next_id && *final(self) == old(
                self,
            ).spec_after_alloc(1),
            r is Err ==> *final(self) == *old(self),
    {
        if self.next_id == u64::MAX {
            return Err(OutOfMemory);
        }
        match self.budget {
            Some(b) => {
                if b == 0 {
                    return Err(OutOfMemory);
                }
                self.budget = Some(b - 1);
            },
            None => {},
        }
        let id = self.next_id;
        self.next_id = self.next_id + 1;
        Ok(id)
    }

    /// Create one semaphore.
    pub fn create_semaphore(&mut self) -> (r: Result<Semaphore, OutOfMemory>)
        ensures
            r is Ok <==> old(self).spec_can_alloc(1),
            r matches Ok(s) ==> s.id == old(self).next_id && *final(self) == old(
                self,
            ).spec_after_alloc(1),
            r is Err ==> *final(self) == *old(self),
    {
        let id = self.alloc_id()?;
        Ok(Semaphore { id })
    }

    /// Create one descriptor set against the layout named in `info`.
    pub fn create_descriptor_set(&mut self, info: &DescriptorSetInfo) -> (r: Result<
        DescriptorSet,
        OutOfMemory,
    >)
        ensures
            r is Ok <==> old(self).spec_can_alloc(1),
            r matches Ok(s) ==> s.id == old(self).next_id && *final(self) == old(
                self,
            ).spec_after_alloc(1),
            r is Err ==> *final(self) == *old(self),
    {
        let id = self.alloc_id()?;
        Ok(DescriptorSet { id })
    }

    /// Create one buffer with the given info.
    pub fn create_buffer(&mut self, info: BufferInfo) -> (r: Result<Buffer, OutOfMemory>)
        ensures
            r is Ok <==> old(self).spec_can_alloc(1),
            r matches Ok(b) ==> b.id == old(self).next_id && b.info == info && *final(self) == old(
                self,
            ).spec_after_alloc(1),
            r is Err ==> *final(self) == *old(self),
    {
        let id = self.alloc_id()?;
        Ok(Buffer { id, info })
    }
}

} // verus!
