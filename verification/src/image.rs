//! Images: what the driver is asked to create, the bindless slot an image
//! occupies, and the layout it is in.

use vstd::prelude::*;
use crate::bindless::DescriptorWrite;
use crate::buffer::{BufferCopy, BufferError};
use crate::convert::{
    image_format_to_vulkan, image_usage_to_vulkan, spec_image_format_to_vulkan,
    spec_image_usage_to_vulkan,
};
use crate::deletion::{DeleteValue, DeletionQueue};
use crate::handles::{spec_capacity, HandleTable, ResourceHandle, ResourceType};
use crate::types::{Extent, ImageFormat, ImageUsage};

verus! {

/// The driver's bit of the colour aspect of an image.
pub const ASPECT_COLOR: u32 = 1;

/// The driver's bit of the depth aspect of an image.
pub const ASPECT_DEPTH: u32 = 2;

/// The arrangements of an image's memory that the library moves images
/// between.
#[derive(Clone, Copy, Debug, PartialEq, Eq, Hash, Structural)]
pub enum ImageLayout {
    Undefined,
    General,
    TransferSrc,
    TransferDst,
    PresentSrc,
    DepthAttachment,
    ReadOnly,
    Attachment,
}

/// The driver's code of an image layout.
pub open spec fn spec_image_layout_to_vulkan(layout: ImageLayout) -> i32 {
    match layout {
        ImageLayout::Undefined => 0,
        ImageLayout::General => 1,
        ImageLayout::TransferSrc => 6,
        ImageLayout::TransferDst => 7,
        ImageLayout::PresentSrc => 1000001002,
        ImageLayout::DepthAttachment => 1000241000,
        ImageLayout::ReadOnly => 1000314000,
        ImageLayout::Attachment => 1000314001,
    }
}

/// The driver's code of an image layout.
#[verifier::when_used_as_spec(spec_image_layout_to_vulkan)]
pub fn image_layout_to_vulkan(layout: ImageLayout) -> (code: i32)
    ensures
        code == spec_image_layout_to_vulkan(layout),
{
    match layout {
        ImageLayout::Undefined => 0,
        ImageLayout::General => 1,
        ImageLayout::TransferSrc => 6,
        ImageLayout::TransferDst => 7,
        ImageLayout::PresentSrc => 1000001002,
        ImageLayout::DepthAttachment => 1000241000,
        ImageLayout::ReadOnly => 1000314000,
        ImageLayout::Attachment => 1000314001,
    }
}

/// Why an image operation was refused.
#[derive(Clone, Copy, Debug, PartialEq, Eq, Structural)]
pub enum ImageError {
    /// The image was created without storage or sampled usage and occupies
    /// no bindless slot.
    NoHandle,
}

/// What the driver is asked for when an image is created.
#[derive(Clone, Copy, Debug, PartialEq, Eq, Structural)]
pub struct ImageCreateInfo {
    /// The driver's code of the texel format.
    pub format: i32,
    /// Width and height; depth, mip levels and array layers are one.
    pub extent: Extent,
    /// The driver's usage mask.
    pub usage: u32,
    /// The driver's aspect mask of the image's view.
    pub aspect_mask: u32,
}

/// A barrier that moves an image from one layout to another.
#[derive(Clone, Copy, Debug, PartialEq, Eq, Structural)]
pub struct LayoutBarrier {
    pub image: u64,
    pub old_layout: ImageLayout,
    pub new_layout: ImageLayout,
    /// The driver's aspect mask of the part of the image that moves.
    pub aspect_mask: u32,
}

/// Whether an image with the given usage occupies a bindless slot.
pub open spec fn spec_needs_handle(usage: ImageUsage) -> bool {
    usage.spec_contains(ImageUsage { bits: 16 }) || usage.spec_contains(ImageUsage { bits: 32 })
}

/// Whether an image with the given usage occupies a bindless slot: it does
/// when shaders read or write it as a storage image or sample it.
#[verifier::when_used_as_spec(spec_needs_handle)]
pub fn needs_handle(usage: ImageUsage) -> (needed: bool)
    ensures
        needed == spec_needs_handle(usage),
{
    usage.contains(ImageUsage::storage()) || usage.contains(ImageUsage::sampled())
}

/// The aspect of the view of an image with the given usage: depth for a
/// depth or stencil attachment, colour otherwise.
pub open spec fn spec_view_aspect(usage: ImageUsage) -> u32 {
    if usage.spec_contains(ImageUsage { bits: 2 }) {
        ASPECT_DEPTH
    } else {
        ASPECT_COLOR
    }
}

/// The descriptor writes that publish an image with the given usage in the
/// given slot: first the storage array, then the sampled array.
pub open spec fn spec_image_writes(usage: ImageUsage, element: u32, view: u64) -> Seq<
    DescriptorWrite,
> {
    let storage = if usage.spec_contains(ImageUsage { bits: 16 }) {
        seq![DescriptorWrite::StorageImage { element, view }]
    } else {
        Seq::empty()
    };
    let sampled = if usage.spec_contains(ImageUsage { bits: 32 }) {
        seq![DescriptorWrite::SampledImage { element, view }]
    } else {
        Seq::empty()
    };
    storage + sampled
}

/// The layout that the driver expects an image to be in when it is read or
/// written through a descriptor of the given write.
pub open spec fn spec_descriptor_layout(write: DescriptorWrite) -> Option<ImageLayout> {
    match write {
        DescriptorWrite::Sampler { .. } => None,
        DescriptorWrite::StorageImage { .. } => Some(ImageLayout::General),
        DescriptorWrite::SampledImage { .. } => Some(ImageLayout::ReadOnly),
    }
}

/// The layout that the driver expects an image to be in when it is read or
/// written through a descriptor of the given write.
#[verifier::when_used_as_spec(spec_descriptor_layout)]
pub fn descriptor_layout(write: DescriptorWrite) -> (layout: Option<ImageLayout>)
    ensures
        layout == spec_descriptor_layout(write),
{
    match write {
        DescriptorWrite::Sampler { .. } => None,
        DescriptorWrite::StorageImage { .. } => Some(ImageLayout::General),
        DescriptorWrite::SampledImage { .. } => Some(ImageLayout::ReadOnly),
    }
}

/// An image, its view and the bindless slot it occupies.
#[derive(Debug)]
pub struct ImageVulkan {
    /// The driver's image, and its memory allocation unless the image
    /// belongs to a swapchain.
    pub allocation: (u64, Option<u64>),
    pub view: u64,
    pub layout: ImageLayout,
    pub format: ImageFormat,
    pub size: Extent,
    pub handle: Option<ResourceHandle>,
}

impl ImageVulkan {
    /// What to ask the driver for to create an image.
    pub fn create_info(size: Extent, format: ImageFormat, usage: ImageUsage) -> (info:
        ImageCreateInfo)
        requires
            usage.is_known(),
        ensures
            info == (ImageCreateInfo {
                format: spec_image_format_to_vulkan(format),
                extent: size,
                usage: spec_image_usage_to_vulkan(usage),
                aspect_mask: spec_view_aspect(usage),
            }),
    {
        ImageCreateInfo {
            format: image_format_to_vulkan(format),
            extent: size,
            usage: image_usage_to_vulkan(usage),
            aspect_mask: if usage.contains(ImageUsage::depth_stencil_attachment()) {
                ASPECT_DEPTH
            } else {
                ASPECT_COLOR
            },
        }
    }

    /// Takes over an image that the driver created. An image with storage or
    /// sampled usage occupies one slot of the image category, and the writes
    /// that publish it in that slot are returned; any other image occupies
    /// no slot and leaves the table alone.
    pub fn new(
        table: &mut HandleTable,
        image: u64,
        allocation: u64,
        view: u64,
        size: Extent,
        format: ImageFormat,
        usage: ImageUsage,
    ) -> (made: (ImageVulkan, Vec<DescriptorWrite>))
        requires
            old(table).wf(),
            needs_handle(usage) ==> old(table).space(ResourceType::Image).has_room(
                spec_capacity(ResourceType::Image),
            ),
        ensures
            final(table).wf(),
            made.0.allocation == (image, Some(allocation)),
            made.0.view == view,
            made.0.layout == ImageLayout::Undefined,
            made.0.format == format,
            made.0.size == size,
            final(table).space(ResourceType::Sampler) == old(table).space(ResourceType::Sampler),
            final(table).touched(ResourceType::Sampler) == old(table).touched(
                ResourceType::Sampler,
            ),
            needs_handle(usage) ==> {
                &&& made.0.handle matches Some(handle)
                &&& handle.ty == ResourceType::Image
                &&& old(table).space(ResourceType::Image).issues(handle.id)
                &&& !old(table).space(ResourceType::Image).live().contains(handle.id)
                &&& final(table).space(ResourceType::Image).live() == old(table).space(
                    ResourceType::Image,
                ).live().insert(handle.id)
                &&& (handle.id as nat) < spec_capacity(ResourceType::Image)
                &&& final(table).space(ResourceType::Image) == old(table).space(
                    ResourceType::Image,
                ).take(handle.id)
                &&& final(table).touched(ResourceType::Image)
                &&& made.1@ == spec_image_writes(usage, handle.id, view)
            },
            !needs_handle(usage) ==> {
                &&& made.0.handle is None
                &&& final(table).space(ResourceType::Image) == old(table).space(
                    ResourceType::Image,
                )
                &&& final(table).touched(ResourceType::Image) == old(table).touched(
                    ResourceType::Image,
                )
                &&& made.1@ == Seq::<DescriptorWrite>::empty()
            },
    {
        let storage = usage.contains(ImageUsage::storage());
        let sampled = usage.contains(ImageUsage::sampled());
        let mut writes: Vec<DescriptorWrite> = Vec::new();
        let handle = if storage || sampled {
            let handle = ResourceHandle::new(table, ResourceType::Image);
            if storage {
                writes.push(DescriptorWrite::StorageImage { element: handle.id, view });
            }
            if sampled {
                writes.push(DescriptorWrite::SampledImage { element: handle.id, view });
            }
            assert(writes@ =~= spec_image_writes(usage, handle.id, view));
            Some(handle)
        } else {
            None
        };
        (
            ImageVulkan {
                allocation: (image, Some(allocation)),
                view,
                layout: ImageLayout::Undefined,
                format,
                size,
                handle,
            },
            writes,
        )
    }

    /// Takes over an image that belongs to a swapchain: it has no memory
    /// allocation of its own and occupies no bindless slot.
    pub fn new_swapchain_image(image: u64, view: u64, format: ImageFormat, size: Extent) -> (made:
        ImageVulkan)
        ensures
            made.allocation == (image, None::<u64>),
            made.view == view,
            made.layout == ImageLayout::Undefined,
            made.format == format,
            made.size == size,
            made.handle is None,
    {
        ImageVulkan {
            allocation: (image, None),
            view,
            layout: ImageLayout::Undefined,
            format,
            size,
            handle: None,
        }
    }

    /// The bindless slot of the image, if it occupies one.
    pub open spec fn spec_handle(&self) -> Result<u32, ImageError> {
        match self.handle {
            Some(handle) => Ok(handle.id),
            None => Err(ImageError::NoHandle),
        }
    }

    /// The bindless slot of the image. An image created without storage or
    /// sampled usage has none, which is an error of the caller.
    pub fn handle(&self) -> (slot: Result<u32, ImageError>)
        ensures
            slot == self.spec_handle(),
    {
        match &self.handle {
            Some(handle) => Ok(handle.id),
            None => Err(ImageError::NoHandle),
        }
    }

    /// The copy that brings `byte_len` bytes, written to the start of a
    /// staging buffer of `staging_size` bytes, into the image.
    pub open spec fn spec_set(&self, staging_size: u64, byte_len: u64) -> Result<
        BufferCopy,
        BufferError,
    > {
        if byte_len > staging_size {
            Err(BufferError::StagingTooSmall)
        } else {
            Ok(BufferCopy { src_offset: 0, dst_offset: 0, size: byte_len })
        }
    }

    /// Plans filling the image through a staging buffer: the data goes to
    /// the start of the staging buffer, and one copy brings it from there
    /// into the image. Data that does not fit into the staging buffer is
    /// refused.
    pub fn set(&self, staging_size: u64, byte_len: u64) -> (fits: Result<BufferCopy, BufferError>)
        ensures
            fits == self.spec_set(staging_size, byte_len),
    {
        if byte_len > staging_size {
            Err(BufferError::StagingTooSmall)
        } else {
            Ok(BufferCopy { src_offset: 0, dst_offset: 0, size: byte_len })
        }
    }

    /// Width and height of the image.
    pub fn size(&self) -> (size: Extent)
        ensures
            size == self.size,
    {
        self.size
    }

    /// The barrier that moves the image into `new_layout`, if it is not in
    /// that layout already.
    pub open spec fn spec_transition(&self, new_layout: ImageLayout) -> Option<LayoutBarrier> {
        if self.layout == new_layout {
            None
        } else {
            Some(
                LayoutBarrier {
                    image: self.allocation.0,
                    old_layout: self.layout,
                    new_layout,
                    aspect_mask: if new_layout == ImageLayout::DepthAttachment {
                        ASPECT_DEPTH
                    } else {
                        ASPECT_COLOR
                    },
                },
            )
        }
    }

    /// Moves the image into `new_layout`. Returns the barrier to record, or
    /// nothing when the image is in that layout already.
    pub fn transition_layout(&mut self, new_layout: ImageLayout) -> (barrier: Option<
        LayoutBarrier,
    >)
        ensures
            barrier == old(self).spec_transition(new_layout),
            final(self).layout == new_layout,
            final(self).allocation == old(self).allocation,
            final(self).view == old(self).view,
            final(self).format == old(self).format,
            final(self).size == old(self).size,
            final(self).handle == old(self).handle,
    {
        if self.layout == new_layout {
            return None;
        }
        let barrier = LayoutBarrier {
            image: self.allocation.0,
            old_layout: self.layout,
            new_layout,
            aspect_mask: if new_layout == ImageLayout::DepthAttachment {
                ASPECT_DEPTH
            } else {
                ASPECT_COLOR
            },
        };
        self.layout = new_layout;
        Some(barrier)
    }

    /// What an image leaves behind for destruction: its view, then the image
    /// with its memory unless the image belongs to a swapchain.
    pub open spec fn spec_remains(&self) -> Seq<DeleteValue> {
        match self.allocation.1 {
            Some(allocation) => seq![
                DeleteValue::ImageView(self.view),
                DeleteValue::Image((self.allocation.0, allocation)),
            ],
            None => seq![DeleteValue::ImageView(self.view)],
        }
    }

    /// Ends the image: queues its driver objects for destruction and gives
    /// its bindless slot back.
    pub fn destroy(self, table: &mut HandleTable, deletion_queue: &mut DeletionQueue)
        requires
            old(table).wf(),
        ensures
            final(table).wf(),
            final(deletion_queue)@ == old(deletion_queue)@ + self.spec_remains(),
            forall|ty: ResourceType| final(table).touched(ty) == old(table).touched(ty),
            match self.handle {
                Some(handle) => final(table).space(handle.ty) == old(table).space(
                    handle.ty,
                ).give_back(handle.id) && forall|other: ResourceType|
                    other != handle.ty ==> final(table).space(other) == old(table).space(other),
                None => forall|ty: ResourceType| final(table).space(ty) == old(table).space(ty),
            },
    {
        deletion_queue.push(DeleteValue::ImageView(self.view));
        if let Some(allocation) = self.allocation.1 {
            deletion_queue.push(DeleteValue::Image((self.allocation.0, allocation)));
        }
        assert(deletion_queue@ =~= old(deletion_queue)@ + self.spec_remains());
        let ImageVulkan { handle, .. } = self;
        if let Some(handle) = handle {
            let _ = handle.release(table);
        }
    }
}

/// A transition into the layout that an image is in records nothing and
/// changes nothing; any other transition records exactly one barrier from
/// the layout the image was in.
pub proof fn law_transition_records_only_changes(image: ImageVulkan, new_layout: ImageLayout)
    ensures
        image.spec_transition(new_layout) is None <==> image.layout == new_layout,
        image.spec_transition(new_layout) matches Some(barrier) ==> barrier.old_layout
            == image.layout && barrier.new_layout == new_layout && barrier.old_layout
            != barrier.new_layout,
{
}

} // verus!
