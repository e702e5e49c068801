//! The context: the state that every resource of one device session shares,
//! and the choices made when the session is set up and torn down.

use vstd::prelude::*;
use crate::bindless::DescriptorWrite;
use crate::buffer::BufferVulkan;
use crate::deletion::{DeleteValue, DeletionQueue};
use crate::fence::Timeline;
use crate::handles::{spec_capacity, HandleTable, ResourceType};
use crate::image::{needs_handle, spec_image_writes, ImageLayout, ImageVulkan};
use crate::pipeline::{
    bind_is_owed, bound_shaders, spec_plan, BindRequest, GraphicsPipelineKey, KeyView,
    PipelineCache, PipelineError,
};
use crate::queue::{pool_remains, QueueVulkan};
use crate::sampler::SamplerVulkan;
use crate::types::{Extent, ImageFormat, ImageUsage, QueueType};

verus! {

/// The driver's code of a discrete GPU among the device types.
pub const DEVICE_TYPE_DISCRETE_GPU: i32 = 2;

/// The driver's bit of queue families that take graphics work.
pub const QUEUE_GRAPHICS: u32 = 0x1;

/// The driver's bit of device-local heaps.
pub const HEAP_DEVICE_LOCAL: u32 = 0x1;

/// The driver's bits of memory that is device local and host visible.
pub const MEMORY_DEVICE_LOCAL_HOST_VISIBLE: u32 = 0x3;

/// A heap of device memory, as the driver reports it.
#[derive(Clone, Copy, Debug, PartialEq, Eq, Structural)]
pub struct MemoryHeap {
    pub size: u64,
    pub flags: u32,
}

/// A type of device memory, as the driver reports it.
#[derive(Clone, Copy, Debug, PartialEq, Eq, Structural)]
pub struct MemoryType {
    pub property_flags: u32,
    pub heap_index: u32,
}

/// Whether a device of the given type is a discrete GPU.
pub open spec fn is_discrete(device_type: i32) -> bool {
    device_type == DEVICE_TYPE_DISCRETE_GPU
}

/// Picks the device to run on: the first discrete GPU, or the first device
/// where none is discrete.
pub fn pick_gpu(device_types: &[i32]) -> (chosen: usize)
    requires
        device_types@.len() > 0,
    ensures
        chosen < device_types@.len(),
        forall|i: int| 0 <= i < chosen ==> !is_discrete(device_types@[i]),
        is_discrete(device_types@[chosen as int]) || (chosen == 0 && forall|i: int|
            0 <= i < device_types@.len() ==> !is_discrete(device_types@[i])),
{
    let mut i: usize = 0;
    while i < device_types.len()
        invariant
            i <= device_types@.len(),
            forall|k: int| 0 <= k < i ==> !is_discrete(device_types@[k]),
        decreases device_types@.len() - i,
    {
        if device_types[i] == DEVICE_TYPE_DISCRETE_GPU {
            return i;
        }
        i += 1;
    }
    0
}

/// Whether a queue family with the given flags takes graphics work.
pub open spec fn takes_graphics(queue_flags: u32) -> bool {
    queue_flags & QUEUE_GRAPHICS == QUEUE_GRAPHICS
}

/// Picks the queue family of the graphics queue: the last family that takes
/// graphics work, or the first family where none does.
pub fn graphics_queue_family(queue_flags: &[u32]) -> (family: u32)
    requires
        queue_flags@.len() <= u32::MAX,
    ensures
        forall|i: int| family < i < queue_flags@.len() ==> !takes_graphics(queue_flags@[i]),
        (family < queue_flags@.len() && takes_graphics(queue_flags@[family as int])) || (family == 0
            && forall|i: int| 0 <= i < queue_flags@.len() ==> !takes_graphics(queue_flags@[i])),
{
    let mut family: u32 = 0;
    let mut found = false;
    let mut i: usize = 0;
    while i < queue_flags.len()
        invariant
            i <= queue_flags@.len() <= u32::MAX,
            forall|k: int| family < k < i ==> !takes_graphics(queue_flags@[k]),
            found ==> family < i && takes_graphics(queue_flags@[family as int]),
            !found ==> family == 0 && forall|k: int| 0 <= k < i ==> !takes_graphics(queue_flags@[k]),
        decreases queue_flags@.len() - i,
    {
        if queue_flags[i] & QUEUE_GRAPHICS == QUEUE_GRAPHICS {
            family = i as u32;
            found = true;
        }
        i += 1;
    }
    family
}

/// Size of the largest device-local heap; zero where there is none.
pub open spec fn max_device_memory(heaps: Seq<MemoryHeap>) -> u64
    decreases heaps.len(),
{
    if heaps.len() == 0 {
        0
    } else {
        let rest = max_device_memory(heaps.drop_last());
        let heap = heaps.last();
        if heap.flags & HEAP_DEVICE_LOCAL == HEAP_DEVICE_LOCAL && heap.size > rest {
            heap.size
        } else {
            rest
        }
    }
}

/// Whether memory of the given type is device local and host visible.
pub open spec fn is_host_visible_device_memory(ty: MemoryType) -> bool {
    ty.property_flags & MEMORY_DEVICE_LOCAL_HOST_VISIBLE == MEMORY_DEVICE_LOCAL_HOST_VISIBLE
}

/// Size of the largest heap that holds memory which is device local and
/// host visible; zero where there is none.
pub open spec fn max_host_visible_device_memory(types: Seq<MemoryType>, heaps: Seq<MemoryHeap>) -> u64
    decreases types.len(),
{
    if types.len() == 0 {
        0
    } else {
        let rest = max_host_visible_device_memory(types.drop_last(), heaps);
        let ty = types.last();
        if is_host_visible_device_memory(ty) && heaps[ty.heap_index as int].size > rest {
            heaps[ty.heap_index as int].size
        } else {
            rest
        }
    }
}

/// Whether the host can reach all of the device's memory: the largest
/// device-local heap is as large as the largest heap with memory that is
/// device local and host visible.
pub open spec fn spec_resizable_bar(heaps: Seq<MemoryHeap>, types: Seq<MemoryType>) -> bool {
    max_device_memory(heaps) == max_host_visible_device_memory(types, heaps)
}

/// Whether the host can reach all of the device's memory.
pub fn resizable_bar(heaps: &[MemoryHeap], types: &[MemoryType]) -> (supported: bool)
    requires
        forall|i: int|
            0 <= i < types@.len() && is_host_visible_device_memory(types@[i])
                ==> types@[i].heap_index < heaps@.len(),
    ensures
        supported == spec_resizable_bar(heaps@, types@),
{
    let mut device: u64 = 0;
    let mut i: usize = 0;
    assert(heaps@.take(0) =~= Seq::<MemoryHeap>::empty());
    while i < heaps.len()
        invariant
            i <= heaps@.len(),
            device == max_device_memory(heaps@.take(i as int)),
        decreases heaps@.len() - i,
    {
        assert(heaps@.take(i + 1).drop_last() =~= heaps@.take(i as int));
        let heap = heaps[i];
        if heap.flags & HEAP_DEVICE_LOCAL == HEAP_DEVICE_LOCAL && heap.size > device {
            device = heap.size;
        }
        i += 1;
    }
    assert(heaps@.take(i as int) =~= heaps@);
    let mut visible: u64 = 0;
    let mut j: usize = 0;
    assert(types@.take(0) =~= Seq::<MemoryType>::empty());
    while j < types.len()
        invariant
            j <= types@.len(),
            visible == max_host_visible_device_memory(types@.take(j as int), heaps@),
            forall|k: int|
                0 <= k < types@.len() && is_host_visible_device_memory(types@[k])
                    ==> types@[k].heap_index < heaps@.len(),
        decreases types@.len() - j,
    {
        assert(types@.take(j + 1).drop_last() =~= types@.take(j as int));
        let ty = types[j];
        if ty.property_flags & MEMORY_DEVICE_LOCAL_HOST_VISIBLE == MEMORY_DEVICE_LOCAL_HOST_VISIBLE {
            let size = heaps[ty.heap_index as usize].size;
            if size > visible {
                visible = size;
            }
        }
        j += 1;
    }
    assert(types@.take(j as int) =~= types@);
    device == visible
}

/// What tearing a context down hands to the driver, once the device is idle.
#[derive(Debug)]
pub struct Teardown {
    /// The compiled pipelines to destroy.
    pub pipelines: Vec<u64>,
    /// The driver objects to destroy after the pipelines, in this order.
    pub batch: Vec<DeleteValue>,
}

/// The state that the resources of one device session share.
pub struct CobraVulkan {
    pub deletion_queue: DeletionQueue,
    pub timeline_value: Timeline,
    pub graphics_queue: QueueVulkan,
    pub graphics_pipelines: PipelineCache,
    pub id_infos: HandleTable,
    pub staging_buffer: Option<BufferVulkan>,
    pub resizable_bar: bool,
}

impl CobraVulkan {
    /// Every part of the context is well formed, and the graphics queue has
    /// seen and stamped nothing beyond the context's timeline.
    pub open spec fn wf(&self) -> bool {
        &&& self.id_infos.wf()
        &&& self.graphics_pipelines.wf()
        &&& self.graphics_queue.wf()
        &&& self.graphics_queue.within(&self.timeline_value)
    }

    /// The context of a fresh session: nothing waits for destruction,
    /// nothing was submitted, no pipeline is compiled and no bindless slot
    /// is occupied.
    pub fn new(resizable_bar: bool) -> (made: CobraVulkan)
        ensures
            made.wf(),
            made.deletion_queue@ == Seq::<DeleteValue>::empty(),
            made.timeline_value@ == 0,
            made.graphics_queue@.pools.len() == 0,
            made.graphics_queue@.free.len() == 0,
            made.graphics_queue@.pending.len() == 0,
            made.graphics_pipelines@ == Map::<KeyView, u64>::empty(),
            forall|ty: ResourceType| !made.id_infos.touched(ty),
            made.staging_buffer is None,
            made.resizable_bar == resizable_bar,
    {
        CobraVulkan {
            deletion_queue: DeletionQueue::new(),
            timeline_value: Timeline::new(),
            graphics_queue: QueueVulkan::new(),
            graphics_pipelines: PipelineCache::new(),
            id_infos: HandleTable::new(),
            staging_buffer: None,
            resizable_bar,
        }
    }

    /// Queues a driver object for destruction.
    pub fn push(&mut self, to_delete: DeleteValue)
        ensures
            final(self).deletion_queue@ == old(self).deletion_queue@.push(to_delete),
            final(self).timeline_value == old(self).timeline_value,
            final(self).graphics_queue == old(self).graphics_queue,
            final(self).graphics_pipelines == old(self).graphics_pipelines,
            final(self).id_infos == old(self).id_infos,
            final(self).staging_buffer == old(self).staging_buffer,
            final(self).resizable_bar == old(self).resizable_bar,
    {
        self.deletion_queue.push(to_delete);
    }

    /// Hands out every driver object that waits for destruction, oldest
    /// first, and leaves the deletion queue empty. The caller makes sure
    /// that the device references none of them any more.
    pub fn flush(&mut self) -> (batch: Vec<DeleteValue>)
        ensures
            batch@ == old(self).deletion_queue@,
            final(self).deletion_queue@ == Seq::<DeleteValue>::empty(),
            final(self).timeline_value == old(self).timeline_value,
            final(self).graphics_queue == old(self).graphics_queue,
            final(self).graphics_pipelines == old(self).graphics_pipelines,
            final(self).id_infos == old(self).id_infos,
            final(self).staging_buffer == old(self).staging_buffer,
            final(self).resizable_bar == old(self).resizable_bar,
    {
        self.deletion_queue.flush()
    }

    /// Moves the timeline on by one and returns the new value.
    pub fn advance(&mut self) -> (value: u64)
        requires
            old(self).wf(),
            old(self).timeline_value@ < u64::MAX,
        ensures
            final(self).wf(),
            value == old(self).timeline_value@ + 1,
            final(self).timeline_value@ == value,
            final(self).deletion_queue == old(self).deletion_queue,
            final(self).graphics_queue == old(self).graphics_queue,
            final(self).graphics_pipelines == old(self).graphics_pipelines,
            final(self).id_infos == old(self).id_infos,
            final(self).staging_buffer == old(self).staging_buffer,
            final(self).resizable_bar == old(self).resizable_bar,
    {
        self.timeline_value.advance()
    }

    /// The queue of the given kind.
    pub fn queue(&self, ty: QueueType) -> (queue: &QueueVulkan)
        ensures
            *queue == self.graphics_queue,
    {
        match ty {
            QueueType::Graphics => &self.graphics_queue,
        }
    }

    /// Whether the host can reach all of the device's memory.
    pub fn supports_resizable_bar(&self) -> (supported: bool)
        ensures
            supported == self.resizable_bar,
    {
        self.resizable_bar
    }

    /// Finds the pipeline of `key` among the compiled ones, or plans its
    /// compilation.
    pub fn bind_graphics_pipeline(&self, key: &GraphicsPipelineKey) -> (outcome: Result<
        BindRequest,
        PipelineError,
    >)
        requires
            self.graphics_pipelines.wf(),
        ensures
            bind_is_owed(self.graphics_pipelines@, key@, outcome),
            !self.graphics_pipelines@.contains_key(key@) && bound_shaders(key@) == 0 ==> (
            outcome matches Ok(BindRequest::Compile(plan)) && plan@ == spec_plan(
                key@,
                Seq::empty(),
            )),
    {
        self.graphics_pipelines.bind_or_create(key)
    }

    /// Takes over an image that the driver created; see
    /// [`ImageVulkan::new`].
    pub fn new_image(
        &mut self,
        image: u64,
        allocation: u64,
        view: u64,
        size: Extent,
        format: ImageFormat,
        usage: ImageUsage,
    ) -> (made: (ImageVulkan, Vec<DescriptorWrite>))
        requires
            old(self).wf(),
            needs_handle(usage) ==> old(self).id_infos.space(ResourceType::Image).has_room(
                spec_capacity(ResourceType::Image),
            ),
        ensures
            final(self).wf(),
            made.0.allocation == (image, Some(allocation)),
            made.0.view == view,
            made.0.layout == ImageLayout::Undefined,
            made.0.format == format,
            made.0.size == size,
            final(self).id_infos.space(ResourceType::Sampler) == old(self).id_infos.space(
                ResourceType::Sampler,
            ),
            needs_handle(usage) ==> {
                &&& made.0.handle matches Some(handle)
                &&& handle.ty == ResourceType::Image
                &&& old(self).id_infos.space(ResourceType::Image).issues(handle.id)
                &&& final(self).id_infos.space(ResourceType::Image) == old(self).id_infos.space(
                    ResourceType::Image,
                ).take(handle.id)
                &&& made.1@ == spec_image_writes(usage, handle.id, view)
            },
            !needs_handle(usage) ==> {
                &&& made.0.handle is None
                &&& final(self).id_infos.space(ResourceType::Image) == old(self).id_infos.space(
                    ResourceType::Image,
                )
                &&& made.1@ == Seq::<DescriptorWrite>::empty()
            },
            final(self).deletion_queue == old(self).deletion_queue,
            final(self).timeline_value == old(self).timeline_value,
            final(self).graphics_queue == old(self).graphics_queue,
            final(self).graphics_pipelines == old(self).graphics_pipelines,
            final(self).staging_buffer == old(self).staging_buffer,
            final(self).resizable_bar == old(self).resizable_bar,
    {
        ImageVulkan::new(&mut self.id_infos, image, allocation, view, size, format, usage)
    }

    /// Takes over a sampler that the driver created; see
    /// [`SamplerVulkan::new`].
    pub fn new_sampler(&mut self, sampler: u64) -> (made: (SamplerVulkan, DescriptorWrite))
        requires
            old(self).wf(),
            old(self).id_infos.space(ResourceType::Sampler).has_room(
                spec_capacity(ResourceType::Sampler),
            ),
        ensures
            final(self).wf(),
            made.0.sampler == sampler,
            made.0.handle.ty == ResourceType::Sampler,
            old(self).id_infos.space(ResourceType::Sampler).issues(made.0.handle.id),
            final(self).id_infos.space(ResourceType::Sampler) == old(self).id_infos.space(
                ResourceType::Sampler,
            ).take(made.0.handle.id),
            final(self).id_infos.space(ResourceType::Image) == old(self).id_infos.space(
                ResourceType::Image,
            ),
            made.1 == (DescriptorWrite::Sampler { element: made.0.handle.id, sampler }),
            final(self).deletion_queue == old(self).deletion_queue,
            final(self).timeline_value == old(self).timeline_value,
            final(self).graphics_queue == old(self).graphics_queue,
            final(self).graphics_pipelines == old(self).graphics_pipelines,
            final(self).staging_buffer == old(self).staging_buffer,
            final(self).resizable_bar == old(self).resizable_bar,
    {
        SamplerVulkan::new(&mut self.id_infos, sampler)
    }

    /// What a context leaves behind for destruction beyond what waits
    /// already: the command pools of the graphics queue's free allocators,
    /// the semaphore of its fence, then the staging buffer.
    pub open spec fn spec_remains(&self) -> Seq<DeleteValue> {
        pool_remains(self.graphics_queue@.pools, self.graphics_queue@.free).push(
            DeleteValue::Semaphore(self.graphics_queue.spec_fence().semaphore()),
        ) + match self.staging_buffer {
            Some(buffer) => seq![DeleteValue::Buffer(buffer.allocation)],
            None => Seq::empty(),
        }
    }

    /// Tears the context down, once the device is idle: hands out the
    /// compiled pipelines, and after them everything that waits for
    /// destruction, followed by what the context itself leaves behind. The
    /// deletion queue is empty afterwards.
    pub fn teardown(&mut self) -> (plan: Teardown)
        requires
            old(self).wf(),
        ensures
            plan.pipelines@.len() == old(self).graphics_pipelines@.dom().len(),
            forall|pipeline: u64|
                plan.pipelines@.contains(pipeline) <==> exists|key: KeyView|
                    old(self).graphics_pipelines@.contains_key(key) && old(self).graphics_pipelines@[key] == pipeline,
            plan.batch@ == old(self).deletion_queue@ + old(self).spec_remains(),
            final(self).deletion_queue@ == Seq::<DeleteValue>::empty(),
            final(self).timeline_value == old(self).timeline_value,
            final(self).graphics_queue == old(self).graphics_queue,
            final(self).graphics_pipelines == old(self).graphics_pipelines,
            final(self).id_infos == old(self).id_infos,
            final(self).staging_buffer == old(self).staging_buffer,
            final(self).resizable_bar == old(self).resizable_bar,
    {
        let pipelines = self.graphics_pipelines.pipelines();
        self.graphics_queue.destroy(&mut self.deletion_queue);
        match &self.staging_buffer {
            Some(buffer) => {
                self.deletion_queue.push(DeleteValue::Buffer(buffer.allocation));
            },
            None => {},
        }
        assert(self.deletion_queue@ =~= old(self).deletion_queue@ + old(self).spec_remains());
        let batch = self.deletion_queue.flush();
        Teardown { pipelines, batch }
    }
}

/// Where the device has no memory that is device local and host visible,
/// the host reaches all of the device's memory only if the device has no
/// device-local memory at all.
pub proof fn law_resizable_bar_needs_host_visible_memory(
    heaps: Seq<MemoryHeap>,
    types: Seq<MemoryType>,
)
    requires
        forall|i: int| 0 <= i < types.len() ==> !is_host_visible_device_memory(types[i]),
    ensures
        max_host_visible_device_memory(types, heaps) == 0,
        spec_resizable_bar(heaps, types) <==> max_device_memory(heaps) == 0,
    decreases types.len(),
{
    if types.len() > 0 {
        assert forall|i: int| 0 <= i < types.drop_last().len() implies !is_host_visible_device_memory(
            types.drop_last()[i],
        ) by {
            assert(types.drop_last()[i] == types[i]);
        }
        law_resizable_bar_needs_host_visible_memory(heaps, types.drop_last());
    }
}

} // verus!
