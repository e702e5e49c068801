//! Deferred destruction of driver objects.
//!
//! An object that a resource gives up may still be referenced by work in
//! flight, so it is not destroyed at once: it is queued, and the whole queue
//! is destroyed at a point at which the device is known to be done.

use vstd::prelude::*;

verus! {

/// A driver object that waits for its destruction, by kind. Each variant
/// holds the driver's handle; images and buffers also hold the handle of
/// their memory allocation.
#[derive(Clone, Copy, Debug, PartialEq, Eq, Hash)]
pub enum DeleteValue {
    Swapchain(u64),
    Surface(u64),
    CommandPool(u64),
    Semaphore(u64),
    ImageView(u64),
    Image((u64, u64)),
    Buffer((u64, u64)),
    Sampler(u64),
    ShaderModule(u64),
}

/// The part of the driver that destroys an object.
#[derive(Clone, Copy, Debug, PartialEq, Eq, Hash, Structural)]
pub enum Destroyer {
    /// The device's swapchain functions.
    SwapchainDevice,
    /// The instance's surface functions.
    SurfaceInstance,
    /// The device itself.
    Device,
    /// The memory allocator, which frees the allocation with the object.
    Allocator,
}

impl DeleteValue {
    /// The part of the driver that destroys an object of this kind.
    pub open spec fn spec_destroyer(self) -> Destroyer {
        match self {
            DeleteValue::Swapchain(_) => Destroyer::SwapchainDevice,
            DeleteValue::Surface(_) => Destroyer::SurfaceInstance,
            DeleteValue::CommandPool(_) => Destroyer::Device,
            DeleteValue::Semaphore(_) => Destroyer::Device,
            DeleteValue::ImageView(_) => Destroyer::Device,
            DeleteValue::Image(_) => Destroyer::Allocator,
            DeleteValue::Buffer(_) => Destroyer::Allocator,
            DeleteValue::Sampler(_) => Destroyer::Device,
            DeleteValue::ShaderModule(_) => Destroyer::Device,
        }
    }

    /// The part of the driver that destroys an object of this kind.
    #[verifier::when_used_as_spec(spec_destroyer)]
    pub fn destroyer(self) -> (by: Destroyer)
        ensures
            by == self.spec_destroyer(),
    {
        match self {
            DeleteValue::Swapchain(_) => Destroyer::SwapchainDevice,
            DeleteValue::Surface(_) => Destroyer::SurfaceInstance,
            DeleteValue::CommandPool(_) => Destroyer::Device,
            DeleteValue::Semaphore(_) => Destroyer::Device,
            DeleteValue::ImageView(_) => Destroyer::Device,
            DeleteValue::Image(_) => Destroyer::Allocator,
            DeleteValue::Buffer(_) => Destroyer::Allocator,
            DeleteValue::Sampler(_) => Destroyer::Device,
            DeleteValue::ShaderModule(_) => Destroyer::Device,
        }
    }

    /// The driver's handle of the object.
    pub open spec fn spec_object(self) -> u64 {
        match self {
            DeleteValue::Swapchain(handle) => handle,
            DeleteValue::Surface(handle) => handle,
            DeleteValue::CommandPool(handle) => handle,
            DeleteValue::Semaphore(handle) => handle,
            DeleteValue::ImageView(handle) => handle,
            DeleteValue::Image(pair) => pair.0,
            DeleteValue::Buffer(pair) => pair.0,
            DeleteValue::Sampler(handle) => handle,
            DeleteValue::ShaderModule(handle) => handle,
        }
    }

    /// The driver's handle of the object.
    #[verifier::when_used_as_spec(spec_object)]
    pub fn object(self) -> (handle: u64)
        ensures
            handle == self.spec_object(),
    {
        match self {
            DeleteValue::Swapchain(handle) => handle,
            DeleteValue::Surface(handle) => handle,
            DeleteValue::CommandPool(handle) => handle,
            DeleteValue::Semaphore(handle) => handle,
            DeleteValue::ImageView(handle) => handle,
            DeleteValue::Image(pair) => pair.0,
            DeleteValue::Buffer(pair) => pair.0,
            DeleteValue::Sampler(handle) => handle,
            DeleteValue::ShaderModule(handle) => handle,
        }
    }
}

/// The objects that wait for their destruction, oldest first.
#[derive(Debug)]
pub struct DeletionQueue {
    entries: Vec<DeleteValue>,
}

impl View for DeletionQueue {
    type V = Seq<DeleteValue>;

    closed spec fn view(&self) -> Seq<DeleteValue> {
        self.entries@
    }
}

impl DeletionQueue {
    /// A queue in which nothing waits.
    pub fn new() -> (queue: DeletionQueue)
        ensures
            queue@ == Seq::<DeleteValue>::empty(),
    {
        DeletionQueue { entries: Vec::new() }
    }

    /// Number of objects that wait.
    pub fn len(&self) -> (count: usize)
        ensures
            count == self@.len(),
    {
        self.entries.len()
    }

    /// Queues an object behind those that wait already.
    pub fn push(&mut self, to_delete: DeleteValue)
        ensures
            final(self)@ == old(self)@.push(to_delete),
    {
        self.entries.push(to_delete);
    }

    /// Hands out everything that waits, oldest first, to be destroyed, and
    /// leaves the queue empty. The caller makes sure that the device
    /// references none of it any more.
    pub fn flush(&mut self) -> (batch: Vec<DeleteValue>)
        ensures
            batch@ == old(self)@,
            final(self)@ == Seq::<DeleteValue>::empty(),
    {
        let mut batch: Vec<DeleteValue> = Vec::new();
        batch.append(&mut self.entries);
        assert(batch@ =~= old(self)@);
        batch
    }
}

} // verus!
