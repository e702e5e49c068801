//! The present target: its images, its per-frame semaphores and the state
//! machine that decides when the swapchain has to be rebuilt.
//!
//! A swapchain is either valid or dirty. It becomes dirty when the driver
//! reports it suboptimal or out of date, or when it is resized to a new,
//! non-degenerate size. A dirty swapchain is rebuilt before the next image
//! is acquired, which makes it valid again.

use vstd::prelude::*;
use crate::deletion::{DeleteValue, DeletionQueue};
use crate::image::{ImageLayout, ImageVulkan, LayoutBarrier};
use crate::types::{Extent, ImageFormat};

verus! {

/// The driver's code of the surface format that is preferred.
pub const PREFERRED_FORMAT: i32 = 37;

/// The driver's code of the colour space that is preferred.
pub const PREFERRED_COLOR_SPACE: i32 = 0;

/// The driver's result code for a swapchain that no longer fits its surface.
pub const ERROR_OUT_OF_DATE: i32 = -1000001004;

/// The driver's usage mask of swapchain images: colour attachment and
/// transfer destination.
pub const SWAPCHAIN_IMAGE_USAGE: u32 = 0x12;

/// A format and colour space that a surface supports, in the driver's codes.
#[derive(Clone, Copy, Debug, PartialEq, Eq, Structural)]
pub struct SurfaceFormat {
    pub format: i32,
    pub color_space: i32,
}

/// What a surface can currently do, as the driver reports it.
#[derive(Clone, Copy, Debug, PartialEq, Eq, Structural)]
pub struct SurfaceCapabilities {
    pub min_image_count: u32,
    /// The size of the surface, or `u32::MAX` in the width when the
    /// swapchain decides the size.
    pub current_extent: Extent,
    pub min_image_extent: Extent,
    pub max_image_extent: Extent,
    pub current_transform: u32,
}

/// What the driver is asked for when a swapchain is created.
#[derive(Clone, Copy, Debug, PartialEq, Eq, Structural)]
pub struct SwapchainCreateInfo {
    pub surface: u64,
    pub min_image_count: u32,
    pub format: SurfaceFormat,
    pub extent: Extent,
    pub image_usage: u32,
    pub pre_transform: u32,
    /// The swapchain that the new one replaces; zero when there is none. It
    /// is destroyed right after the new one was created, never before.
    pub old_swapchain: u64,
}

/// The two states of a swapchain.
#[derive(Clone, Copy, Debug, PartialEq, Eq, Structural)]
pub enum SwapchainState {
    Valid,
    Dirty,
}

/// Whether a surface format is the preferred one.
pub open spec fn is_preferred(format: SurfaceFormat) -> bool {
    format.format == PREFERRED_FORMAT && format.color_space == PREFERRED_COLOR_SPACE
}

/// `value` restricted to the range from `low` to `high`.
pub open spec fn spec_clamp(value: u32, low: u32, high: u32) -> u32 {
    if value < low {
        low
    } else if value > high {
        high
    } else {
        value
    }
}

/// The size of the images of a swapchain on a surface with the given
/// capabilities, asked to be of the given size.
pub open spec fn spec_choose_swap_extent(capabilities: SurfaceCapabilities, size: Extent) -> Extent {
    if capabilities.current_extent.width == u32::MAX {
        Extent {
            width: spec_clamp(
                size.width,
                capabilities.min_image_extent.width,
                capabilities.max_image_extent.width,
            ),
            height: spec_clamp(
                size.height,
                capabilities.min_image_extent.height,
                capabilities.max_image_extent.height,
            ),
        }
    } else {
        capabilities.current_extent
    }
}

/// What the driver said to a request for the next image: the index of the
/// image and whether the swapchain is suboptimal, or a result code.
pub type AcquireAnswer = Result<(u32, bool), i32>;

/// What the driver said to a request to present: whether the swapchain is
/// suboptimal, or a result code.
pub type PresentAnswer = Result<bool, i32>;

/// A surface, its swapchain, the images to present and the semaphores that
/// order acquisition and presentation frame by frame.
#[derive(Debug)]
pub struct SwapchainVulkan {
    surface: u64,
    surface_format: SurfaceFormat,
    swapchain: u64,
    images: Vec<ImageVulkan>,
    image_index: u32,
    semaphores: Vec<u64>,
    semaphore_index: usize,
    size: Extent,
    dirty: bool,
}

/// The images that present the given driver images and views.
pub open spec fn spec_present_images(targets: Seq<(u64, u64)>, size: Extent) -> Seq<ImageVulkan> {
    targets.map(
        |i: int, target: (u64, u64)|
            ImageVulkan {
                allocation: (target.0, None),
                view: target.1,
                layout: ImageLayout::Undefined,
                format: ImageFormat::R8G8B8A8Unorm,
                size,
                handle: None,
            },
    )
}

/// The views of the given images, queued for destruction.
pub open spec fn spec_view_remains(images: Seq<ImageVulkan>) -> Seq<DeleteValue> {
    images.map(|i: int, image: ImageVulkan| DeleteValue::ImageView(image.view))
}

/// The given semaphores, queued for destruction.
pub open spec fn spec_semaphore_remains(semaphores: Seq<u64>) -> Seq<DeleteValue> {
    semaphores.map(|i: int, semaphore: u64| DeleteValue::Semaphore(semaphore))
}

/// Wraps the driver's images and views of a swapchain.
fn present_images(targets: &Vec<(u64, u64)>, size: Extent) -> (images: Vec<ImageVulkan>)
    ensures
        images@ == spec_present_images(targets@, size),
{
    let mut images: Vec<ImageVulkan> = Vec::new();
    let mut i: usize = 0;
    while i < targets.len()
        invariant
            i <= targets@.len(),
            images@ == spec_present_images(targets@.take(i as int), size),
        decreases targets@.len() - i,
    {
        let target = targets[i];
        images.push(
            ImageVulkan::new_swapchain_image(target.0, target.1, ImageFormat::R8G8B8A8Unorm, size),
        );
        assert(images@ =~= spec_present_images(targets@.take(i + 1), size));
        i += 1;
    }
    assert(targets@.take(i as int) =~= targets@);
    images
}

impl SwapchainVulkan {
    pub closed spec fn surface(&self) -> u64 {
        self.surface
    }

    pub closed spec fn surface_format(&self) -> SurfaceFormat {
        self.surface_format
    }

    pub closed spec fn swapchain(&self) -> u64 {
        self.swapchain
    }

    pub closed spec fn images(&self) -> Seq<ImageVulkan> {
        self.images@
    }

    pub closed spec fn image_index(&self) -> u32 {
        self.image_index
    }

    pub closed spec fn semaphores(&self) -> Seq<u64> {
        self.semaphores@
    }

    pub closed spec fn semaphore_index(&self) -> nat {
        self.semaphore_index as nat
    }

    pub closed spec fn spec_size(&self) -> Extent {
        self.size
    }

    pub closed spec fn dirty(&self) -> bool {
        self.dirty
    }

    /// The state of the swapchain.
    pub open spec fn spec_state(&self) -> SwapchainState {
        if self.dirty() {
            SwapchainState::Dirty
        } else {
            SwapchainState::Valid
        }
    }

    /// Both cursors point at something: there is a current image and a
    /// current semaphore.
    pub open spec fn wf(&self) -> bool {
        &&& self.image_index() < self.images().len()
        &&& self.semaphore_index() < self.semaphores().len()
    }

    /// The semaphore after the current one, wrapping around.
    pub open spec fn next_semaphore_index(&self) -> nat {
        (((self.semaphore_index() + 1) as int) % (self.semaphores().len() as int)) as nat
    }

    /// Picks the preferred surface format where the surface supports it, and
    /// the first supported format otherwise.
    pub fn choose_surface_format(available_formats: &[SurfaceFormat]) -> (chosen: SurfaceFormat)
        requires
            available_formats@.len() > 0,
        ensures
            available_formats@.contains(chosen),
            (exists|i: int|
                0 <= i < available_formats@.len() && is_preferred(available_formats@[i]))
                ==> is_preferred(chosen),
            (forall|i: int|
                0 <= i < available_formats@.len() ==> !is_preferred(available_formats@[i]))
                ==> chosen == available_formats@[0],
    {
        let mut i: usize = 0;
        while i < available_formats.len()
            invariant
                i <= available_formats@.len(),
                forall|k: int| 0 <= k < i ==> !is_preferred(available_formats@[k]),
            decreases available_formats@.len() - i,
        {
            let format = available_formats[i];
            if format.format == PREFERRED_FORMAT && format.color_space == PREFERRED_COLOR_SPACE {
                return format;
            }
            i += 1;
        }
        available_formats[0]
    }

    /// Picks the size of the swapchain's images: the size of the surface
    /// where the surface has one, and the wanted size within the limits of
    /// the surface otherwise.
    pub fn choose_swap_extent(capabilities: &SurfaceCapabilities, size: Extent) -> (extent: Extent)
        requires
            capabilities.current_extent.width == u32::MAX ==> capabilities.min_image_extent.width
                <= capabilities.max_image_extent.width && capabilities.min_image_extent.height
                <= capabilities.max_image_extent.height,
        ensures
            extent == spec_choose_swap_extent(*capabilities, size),
    {
        if capabilities.current_extent.width == u32::MAX {
            Extent {
                width: clamp(
                    size.width,
                    capabilities.min_image_extent.width,
                    capabilities.max_image_extent.width,
                ),
                height: clamp(
                    size.height,
                    capabilities.min_image_extent.height,
                    capabilities.max_image_extent.height,
                ),
            }
        } else {
            capabilities.current_extent
        }
    }

    /// What to ask the driver for to create a swapchain on a surface, in
    /// place of `old_swapchain` where there is one.
    pub fn create_info(
        surface: u64,
        surface_format: SurfaceFormat,
        capabilities: &SurfaceCapabilities,
        old_swapchain: Option<u64>,
        size: Extent,
    ) -> (info: SwapchainCreateInfo)
        requires
            capabilities.current_extent.width == u32::MAX ==> capabilities.min_image_extent.width
                <= capabilities.max_image_extent.width && capabilities.min_image_extent.height
                <= capabilities.max_image_extent.height,
        ensures
            info == (SwapchainCreateInfo {
                surface,
                min_image_count: capabilities.min_image_count,
                format: surface_format,
                extent: spec_choose_swap_extent(*capabilities, size),
                image_usage: SWAPCHAIN_IMAGE_USAGE,
                pre_transform: capabilities.current_transform,
                old_swapchain: match old_swapchain {
                    Some(old) => old,
                    None => 0,
                },
            }),
    {
        SwapchainCreateInfo {
            surface,
            min_image_count: capabilities.min_image_count,
            format: surface_format,
            extent: Self::choose_swap_extent(capabilities, size),
            image_usage: SWAPCHAIN_IMAGE_USAGE,
            pre_transform: capabilities.current_transform,
            old_swapchain: match old_swapchain {
                Some(old) => old,
                None => 0,
            },
        }
    }

    /// Number of semaphores of a swapchain with the given number of images:
    /// two for each image.
    pub fn semaphore_count(image_count: usize) -> (count: usize)
        requires
            2 * image_count <= usize::MAX,
        ensures
            count == 2 * image_count,
    {
        image_count * 2
    }

    /// Takes over a swapchain that the driver created: `targets` are its
    /// images with their views, `size` the size it was created with. The
    /// swapchain starts valid, at its first image and its first semaphore.
    pub fn new(
        surface: u64,
        surface_format: SurfaceFormat,
        swapchain: u64,
        targets: &Vec<(u64, u64)>,
        semaphores: Vec<u64>,
        size: Extent,
    ) -> (made: SwapchainVulkan)
        requires
            targets@.len() > 0,
            semaphores@.len() == 2 * targets@.len(),
        ensures
            made.wf(),
            made.surface() == surface,
            made.surface_format() == surface_format,
            made.swapchain() == swapchain,
            made.images() == spec_present_images(targets@, size),
            made.image_index() == 0,
            made.semaphores() == semaphores@,
            made.semaphore_index() == 0,
            made.spec_size() == size,
            !made.dirty(),
    {
        SwapchainVulkan {
            surface,
            surface_format,
            swapchain,
            images: present_images(targets, size),
            image_index: 0,
            semaphores,
            semaphore_index: 0,
            size,
            dirty: false,
        }
    }

    /// The image that was acquired last.
    pub fn current_image(&self) -> (image: &ImageVulkan)
        requires
            self.wf(),
        ensures
            *image == self.images()[self.image_index() as int],
    {
        &self.images[self.image_index as usize]
    }

    /// Index of the image that was acquired last.
    pub fn current_image_index(&self) -> (index: u32)
        ensures
            index == self.image_index(),
    {
        self.image_index
    }

    /// Moves the image that was acquired last into `new_layout` and returns
    /// the barrier to record, if the layout changes.
    pub fn transition_current_image(&mut self, new_layout: ImageLayout) -> (barrier: Option<
        LayoutBarrier,
    >)
        requires
            old(self).wf(),
        ensures
            final(self).wf(),
            barrier == old(self).images()[old(self).image_index() as int].spec_transition(
                new_layout,
            ),
            final(self).images() == old(self).images().update(
                old(self).image_index() as int,
                ImageVulkan {
                    layout: new_layout,
                    ..old(self).images()[old(self).image_index() as int]
                },
            ),
            final(self).surface() == old(self).surface(),
            final(self).surface_format() == old(self).surface_format(),
            final(self).swapchain() == old(self).swapchain(),
            final(self).image_index() == old(self).image_index(),
            final(self).semaphores() == old(self).semaphores(),
            final(self).semaphore_index() == old(self).semaphore_index(),
            final(self).spec_size() == old(self).spec_size(),
            final(self).dirty() == old(self).dirty(),
    {
        let at = self.image_index as usize;
        let mut image = self.images.remove(at);
        let barrier = image.transition_layout(new_layout);
        self.images.insert(at, image);
        assert(self.images@ =~= old(self).images@.update(at as int, image));
        barrier
    }

    /// The size that the swapchain has, or will have once it is rebuilt.
    pub fn size(&self) -> (size: Extent)
        ensures
            size == self.spec_size(),
    {
        self.size
    }

    /// The state of the swapchain.
    pub fn state(&self) -> (state: SwapchainState)
        ensures
            state == self.spec_state(),
    {
        if self.dirty {
            SwapchainState::Dirty
        } else {
            SwapchainState::Valid
        }
    }

    /// Handle of the driver's swapchain.
    pub fn handle(&self) -> (swapchain: u64)
        ensures
            swapchain == self.swapchain(),
    {
        self.swapchain
    }

    /// Handle of the driver's surface.
    pub fn surface_handle(&self) -> (surface: u64)
        ensures
            surface == self.surface(),
    {
        self.surface
    }

    /// The format and colour space that the swapchain was created with.
    pub fn format(&self) -> (format: SurfaceFormat)
        ensures
            format == self.surface_format(),
    {
        self.surface_format
    }

    /// Number of images that the swapchain presents.
    pub fn image_count(&self) -> (count: usize)
        ensures
            count == self.images().len(),
    {
        self.images.len()
    }

    /// The semaphore of the current frame.
    pub fn current_semaphore(&self) -> (semaphore: u64)
        requires
            self.wf(),
        ensures
            semaphore == self.semaphores()[self.semaphore_index() as int],
    {
        self.semaphores[self.semaphore_index]
    }

    /// Whether resizing to `size` marks the swapchain dirty: the size is not
    /// degenerate and differs from the current one.
    pub open spec fn resize_takes_effect(&self, size: Extent) -> bool {
        !size.spec_is_degenerate() && size != self.spec_size()
    }

    /// Asks for a new size. A degenerate size, or the size that the
    /// swapchain has, is ignored; any other size is taken over and marks the
    /// swapchain dirty.
    pub fn resize(&mut self, size: Extent)
        ensures
            final(self).surface() == old(self).surface(),
            final(self).surface_format() == old(self).surface_format(),
            final(self).swapchain() == old(self).swapchain(),
            final(self).images() == old(self).images(),
            final(self).image_index() == old(self).image_index(),
            final(self).semaphores() == old(self).semaphores(),
            final(self).semaphore_index() == old(self).semaphore_index(),
            old(self).resize_takes_effect(size) ==> final(self).spec_size() == size && final(self).dirty(),
            !old(self).resize_takes_effect(size) ==> final(self).spec_size() == old(self).spec_size() && final(self).dirty() == old(self).dirty(),
    {
        if size.is_degenerate() || size == self.size {
            return ;
        }
        self.size = size;
        self.dirty = true;
    }

    /// Moves on to the semaphore of the next frame, wrapping around.
    pub fn advance_semaphore(&mut self)
        requires
            old(self).wf(),
        ensures
            final(self).wf(),
            final(self).semaphore_index() == old(self).next_semaphore_index(),
            final(self).surface() == old(self).surface(),
            final(self).surface_format() == old(self).surface_format(),
            final(self).swapchain() == old(self).swapchain(),
            final(self).images() == old(self).images(),
            final(self).image_index() == old(self).image_index(),
            final(self).semaphores() == old(self).semaphores(),
            final(self).spec_size() == old(self).spec_size(),
            final(self).dirty() == old(self).dirty(),
    {
        let count = self.semaphores.len();
        let next = if self.semaphore_index + 1 == count {
            0
        } else {
            self.semaphore_index + 1
        };
        assert(next == (self.semaphore_index + 1) % (count as int)) by {
            if self.semaphore_index + 1 == count {
                assert((count as int) % (count as int) == 0) by (nonlinear_arith)
                    requires
                        count > 0,
                ;
            } else {
                vstd::arithmetic::div_mod::lemma_small_mod(
                    (self.semaphore_index + 1) as nat,
                    count as nat,
                );
            }
        }
        self.semaphore_index = next;
    }

    /// Takes note of the driver's answer to a request for the next image.
    ///
    /// An image that comes with a swapchain that still fits becomes the
    /// current image, and `Ok(true)` is returned. A suboptimal or outdated
    /// swapchain is marked dirty and yields no image this frame:
    /// `Ok(false)`, with both cursors where they were. Any other result code
    /// is an error, and nothing changes.
    pub fn note_acquire(&mut self, answer: AcquireAnswer) -> (outcome: Result<bool, i32>)
        requires
            old(self).wf(),
            answer matches Ok(found) ==> found.1 || found.0 < old(self).images().len(),
        ensures
            final(self).wf(),
            final(self).surface() == old(self).surface(),
            final(self).surface_format() == old(self).surface_format(),
            final(self).swapchain() == old(self).swapchain(),
            final(self).images() == old(self).images(),
            final(self).semaphores() == old(self).semaphores(),
            final(self).semaphore_index() == old(self).semaphore_index(),
            final(self).spec_size() == old(self).spec_size(),
            match answer {
                Ok((index, suboptimal)) => if suboptimal {
                    outcome == Ok::<bool, i32>(false) && final(self).dirty() && final(self).image_index() == old(self).image_index()
                } else {
                    outcome == Ok::<bool, i32>(true) && final(self).dirty() == old(self).dirty()
                        && final(self).image_index() == index
                },
                Err(code) => if code == ERROR_OUT_OF_DATE {
                    outcome == Ok::<bool, i32>(false) && final(self).dirty() && final(self).image_index() == old(self).image_index()
                } else {
                    outcome == Err::<bool, i32>(code) && final(self).dirty() == old(self).dirty()
                        && final(self).image_index() == old(self).image_index()
                },
            },
    {
        match answer {
            Ok((index, suboptimal)) => {
                if suboptimal {
                    self.dirty = true;
                    Ok(false)
                } else {
                    self.image_index = index;
                    Ok(true)
                }
            },
            Err(code) => {
                if code == ERROR_OUT_OF_DATE {
                    self.dirty = true;
                    Ok(false)
                } else {
                    Err(code)
                }
            },
        }
    }

    /// Takes note of the driver's answer to a request to present. A
    /// suboptimal or outdated swapchain is marked dirty; any other result
    /// code is an error.
    pub fn note_present(&mut self, answer: PresentAnswer) -> (outcome: Result<(), i32>)
        ensures
            final(self).surface() == old(self).surface(),
            final(self).surface_format() == old(self).surface_format(),
            final(self).swapchain() == old(self).swapchain(),
            final(self).images() == old(self).images(),
            final(self).image_index() == old(self).image_index(),
            final(self).semaphores() == old(self).semaphores(),
            final(self).semaphore_index() == old(self).semaphore_index(),
            final(self).spec_size() == old(self).spec_size(),
            match answer {
                Ok(suboptimal) => outcome is Ok && final(self).dirty() == (old(self).dirty()
                    || suboptimal),
                Err(code) => if code == ERROR_OUT_OF_DATE {
                    outcome is Ok && final(self).dirty()
                } else {
                    outcome == Err::<(), i32>(code) && final(self).dirty() == old(self).dirty()
                },
            },
    {
        match answer {
            Ok(suboptimal) => {
                if suboptimal {
                    self.dirty = true;
                }
                Ok(())
            },
            Err(code) => {
                if code == ERROR_OUT_OF_DATE {
                    self.dirty = true;
                    Ok(())
                } else {
                    Err(code)
                }
            },
        }
    }

    /// Takes over the swapchain that the driver created in place of the
    /// current one, with its images and the size it was created with. The
    /// views of the replaced images are queued for destruction, and the
    /// swapchain is valid again. The current image stays where it was if the
    /// new swapchain has an image there, and is the first image otherwise.
    /// Returns the replaced swapchain, which the caller destroys now that the
    /// new one exists.
    pub fn recreate(
        &mut self,
        deletion_queue: &mut DeletionQueue,
        swapchain: u64,
        targets: &Vec<(u64, u64)>,
        size: Extent,
    ) -> (replaced: u64)
        requires
            old(self).wf(),
            targets@.len() > 0,
        ensures
            final(self).wf(),
            replaced == old(self).swapchain(),
            final(self).swapchain() == swapchain,
            final(self).images() == spec_present_images(targets@, size),
            final(self).spec_size() == size,
            !final(self).dirty(),
            final(self).image_index() == if old(self).image_index() < targets@.len() {
                old(self).image_index()
            } else {
                0
            },
            final(self).surface() == old(self).surface(),
            final(self).surface_format() == old(self).surface_format(),
            final(self).semaphores() == old(self).semaphores(),
            final(self).semaphore_index() == old(self).semaphore_index(),
            final(deletion_queue)@ == old(deletion_queue)@ + spec_view_remains(
                old(self).images(),
            ),
    {
        let replaced = self.swapchain;
        queue_views(&self.images, deletion_queue);
        self.images = present_images(targets, size);
        self.swapchain = swapchain;
        self.size = size;
        self.dirty = false;
        if self.image_index as usize >= self.images.len() {
            self.image_index = 0;
        }
        replaced
    }

    /// What a swapchain leaves behind for destruction: the swapchain, the
    /// surface, every semaphore, then the view of every image.
    pub open spec fn spec_remains(&self) -> Seq<DeleteValue> {
        seq![DeleteValue::Swapchain(self.swapchain()), DeleteValue::Surface(self.surface())]
            + spec_semaphore_remains(self.semaphores()) + spec_view_remains(self.images())
    }

    /// Ends the swapchain: queues its driver objects for destruction.
    pub fn destroy(self, deletion_queue: &mut DeletionQueue)
        ensures
            final(deletion_queue)@ == old(deletion_queue)@ + self.spec_remains(),
    {
        deletion_queue.push(DeleteValue::Swapchain(self.swapchain));
        deletion_queue.push(DeleteValue::Surface(self.surface));
        let ghost before = deletion_queue@;
        let mut i: usize = 0;
        while i < self.semaphores.len()
            invariant
                i <= self.semaphores@.len(),
                deletion_queue@ == before + spec_semaphore_remains(self.semaphores@.take(i as int)),
            decreases self.semaphores@.len() - i,
        {
            deletion_queue.push(DeleteValue::Semaphore(self.semaphores[i]));
            assert(deletion_queue@ =~= before + spec_semaphore_remains(
                self.semaphores@.take(i + 1),
            ));
            i += 1;
        }
        assert(self.semaphores@.take(i as int) =~= self.semaphores@);
        queue_views(&self.images, deletion_queue);
        assert(deletion_queue@ =~= old(deletion_queue)@ + self.spec_remains());
    }
}

/// `value` restricted to the range from `low` to `high`.
fn clamp(value: u32, low: u32, high: u32) -> (clamped: u32)
    requires
        low <= high,
    ensures
        clamped == spec_clamp(value, low, high),
{
    if value < low {
        low
    } else if value > high {
        high
    } else {
        value
    }
}

/// Queues the views of the given images for destruction, in order.
fn queue_views(images: &Vec<ImageVulkan>, deletion_queue: &mut DeletionQueue)
    ensures
        final(deletion_queue)@ == old(deletion_queue)@ + spec_view_remains(images@),
{
    let ghost before = deletion_queue@;
    let mut i: usize = 0;
    while i < images.len()
        invariant
            i <= images@.len(),
            deletion_queue@ == before + spec_view_remains(images@.take(i as int)),
        decreases images@.len() - i,
    {
        deletion_queue.push(DeleteValue::ImageView(images[i].view));
        assert(deletion_queue@ =~= before + spec_view_remains(images@.take(i + 1)));
        i += 1;
    }
    assert(images@.take(i as int) =~= images@);
}

/// Resizing to a degenerate size changes nothing: a valid swapchain stays
/// valid and keeps its size, so nothing is rebuilt.
pub proof fn law_degenerate_resize_is_ignored(swapchain: SwapchainVulkan, size: Extent)
    requires
        size.width == 0 || size.height == 0,
    ensures
        !swapchain.resize_takes_effect(size),
{
}

/// Resizing to the size that the swapchain has changes nothing.
pub proof fn law_resize_to_same_size_is_ignored(swapchain: SwapchainVulkan)
    ensures
        !swapchain.resize_takes_effect(swapchain.spec_size()),
{
}

/// A size within the limits of a surface that lets the swapchain decide is
/// taken as it is, and whatever size is asked for, the chosen one lies
/// within the limits.
pub proof fn law_chosen_extent_is_within_limits(capabilities: SurfaceCapabilities, size: Extent)
    requires
        capabilities.current_extent.width == u32::MAX,
        capabilities.min_image_extent.width <= capabilities.max_image_extent.width,
        capabilities.min_image_extent.height <= capabilities.max_image_extent.height,
    ensures
        capabilities.min_image_extent.width <= spec_choose_swap_extent(capabilities, size).width
            <= capabilities.max_image_extent.width,
        capabilities.min_image_extent.height <= spec_choose_swap_extent(capabilities, size).height
            <= capabilities.max_image_extent.height,
        capabilities.min_image_extent.width <= size.width <= capabilities.max_image_extent.width
            && capabilities.min_image_extent.height <= size.height
            <= capabilities.max_image_extent.height ==> spec_choose_swap_extent(capabilities, size)
            == size,
{
}

/// A swapchain that is rebuilt after a resize to a size within the limits
/// of a surface that lets the swapchain decide is created with that size,
/// and every image that it then presents has that size.
pub proof fn law_rebuild_after_resize_presents_the_wanted_size(
    capabilities: SurfaceCapabilities,
    wanted: Extent,
    targets: Seq<(u64, u64)>,
)
    requires
        capabilities.current_extent.width == u32::MAX,
        capabilities.min_image_extent.width <= wanted.width <= capabilities.max_image_extent.width,
        capabilities.min_image_extent.height <= wanted.height
            <= capabilities.max_image_extent.height,
    ensures
        spec_choose_swap_extent(capabilities, wanted) == wanted,
        spec_present_images(targets, spec_choose_swap_extent(capabilities, wanted)).len()
            == targets.len(),
        forall|i: int|
            0 <= i < targets.len() ==> (#[trigger] spec_present_images(
                targets,
                spec_choose_swap_extent(capabilities, wanted),
            )[i]).size == wanted,
{
}

/// After a swapchain was rebuilt, every image that it presents has the size
/// that it was rebuilt with.
pub proof fn law_rebuilt_images_have_the_new_size(targets: Seq<(u64, u64)>, size: Extent)
    ensures
        spec_present_images(targets, size).len() == targets.len(),
        forall|i: int|
            0 <= i < targets.len() ==> (#[trigger] spec_present_images(targets, size)[i]).size
                == size,
{
}

} // verus!
