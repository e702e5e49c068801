//! Samplers and the bindless slots they occupy.

use vstd::prelude::*;
use crate::bindless::DescriptorWrite;
use crate::deletion::{DeleteValue, DeletionQueue};
use crate::handles::{spec_capacity, HandleTable, ResourceHandle, ResourceType};

verus! {

/// The driver's code of the linear filter, which samplers magnify and
/// minify with.
pub const FILTER_LINEAR: i32 = 1;

/// A sampler and the bindless slot it occupies.
#[derive(Debug)]
pub struct SamplerVulkan {
    pub sampler: u64,
    pub handle: ResourceHandle,
}

impl SamplerVulkan {
    /// Takes over a sampler that the driver created: it occupies one slot of
    /// the sampler category, and the write that publishes it in that slot is
    /// returned.
    pub fn new(table: &mut HandleTable, sampler: u64) -> (made: (SamplerVulkan, DescriptorWrite))
        requires
            old(table).wf(),
            old(table).space(ResourceType::Sampler).has_room(spec_capacity(ResourceType::Sampler)),
        ensures
            final(table).wf(),
            final(table).touched(ResourceType::Sampler),
            made.0.sampler == sampler,
            made.0.handle.ty == ResourceType::Sampler,
            old(table).space(ResourceType::Sampler).issues(made.0.handle.id),
            !old(table).space(ResourceType::Sampler).live().contains(made.0.handle.id),
            (made.0.handle.id as nat) < spec_capacity(ResourceType::Sampler),
            final(table).space(ResourceType::Sampler) == old(table).space(
                ResourceType::Sampler,
            ).take(made.0.handle.id),
            final(table).space(ResourceType::Image) == old(table).space(ResourceType::Image),
            final(table).touched(ResourceType::Image) == old(table).touched(ResourceType::Image),
            made.1 == (DescriptorWrite::Sampler { element: made.0.handle.id, sampler }),
    {
        let handle = ResourceHandle::new(table, ResourceType::Sampler);
        let write = DescriptorWrite::Sampler { element: handle.id, sampler };
        (SamplerVulkan { sampler, handle }, write)
    }

    /// The bindless slot of the sampler.
    pub fn handle(&self) -> (slot: u32)
        ensures
            slot == self.handle.id,
    {
        self.handle.id
    }

    /// Ends the sampler: queues its driver object for destruction and gives
    /// its bindless slot back.
    pub fn destroy(self, table: &mut HandleTable, deletion_queue: &mut DeletionQueue)
        requires
            old(table).wf(),
        ensures
            final(table).wf(),
            final(deletion_queue)@ == old(deletion_queue)@.push(DeleteValue::Sampler(self.sampler)),
            forall|ty: ResourceType| final(table).touched(ty) == old(table).touched(ty),
            final(table).space(self.handle.ty) == old(table).space(self.handle.ty).give_back(
                self.handle.id,
            ),
            forall|other: ResourceType|
                other != self.handle.ty ==> final(table).space(other) == old(table).space(other),
    {
        deletion_queue.push(DeleteValue::Sampler(self.sampler));
        let SamplerVulkan { handle, .. } = self;
        let _ = handle.release(table);
    }
}

} // verus!
