//! Command lists: the recording handle of one command buffer and the render
//! state that decides which pipeline its draws need.

use vstd::prelude::*;
use crate::image::{ImageLayout, ImageVulkan, LayoutBarrier};
use crate::pipeline::{shader_bytes, GraphicsPipelineKey, KeyView, MAX_SHADERS};
use crate::swapchain::SwapchainVulkan;
use crate::types::{BlendFactor, BlendOp, Extent};

verus! {

/// A pool of command buffer storage and the retired command lists that were
/// allocated from it and can record again.
#[derive(Debug)]
pub struct CommandAllocator {
    pub command_pool: u64,
    pub available_command_lists: Vec<CommandListVulkan>,
}

/// The recording handle of one command buffer.
#[derive(Debug)]
pub struct CommandListVulkan {
    pub command_buffer: u64,
    /// Position, in its queue, of the allocator that the command buffer was
    /// allocated from.
    pub allocator: usize,
    /// The render state that was recorded so far.
    pub graphics_key: GraphicsPipelineKey,
    /// Whether render state was recorded, so that draws need a pipeline bound.
    pub graphics_state_changed: bool,
}

/// What beginning a render pass records.
#[derive(Debug)]
pub struct RenderingInfo {
    /// The layout changes to record first: the depth attachment's, then the
    /// colour attachment's, each only if its layout changes.
    pub barriers: Vec<LayoutBarrier>,
    /// The area to render to, from the origin.
    pub region: Extent,
    pub color_view: u64,
    pub depth_view: Option<u64>,
}

/// The barrier of an optional layout change, as a list.
pub open spec fn barrier_list(barrier: Option<LayoutBarrier>) -> Seq<LayoutBarrier> {
    match barrier {
        Some(barrier) => seq![barrier],
        None => Seq::empty(),
    }
}

/// The shaders of a key after the given binaries were bound from the first
/// position on.
pub open spec fn spec_bound(before: Seq<Option<Seq<u8>>>, shaders: Seq<&'static [u8]>) -> Seq<
    Option<Seq<u8>>,
> {
    Seq::new(
        before.len(),
        |i: int|
            if i < shaders.len() {
                Some(shaders[i]@)
            } else {
                before[i]
            },
    )
}

impl CommandListVulkan {
    /// The command list of a command buffer that was just allocated: no
    /// render state is recorded.
    pub fn new(command_buffer: u64, allocator: usize) -> (made: CommandListVulkan)
        ensures
            made.command_buffer == command_buffer,
            made.allocator == allocator,
            made.graphics_key@ == GraphicsPipelineKey::initial(),
            !made.graphics_state_changed,
    {
        CommandListVulkan {
            command_buffer,
            allocator,
            graphics_key: GraphicsPipelineKey::new(),
            graphics_state_changed: false,
        }
    }

    /// Begins a render pass on a colour attachment and, optionally, a depth
    /// attachment. The formats of the attachments become part of the render
    /// state, and the attachments move into their attachment layouts.
    pub fn begin_rendering(
        &mut self,
        region: Extent,
        color_attachment: &mut ImageVulkan,
        depth_attachment: Option<&mut ImageVulkan>,
    ) -> (info: RenderingInfo)
        ensures
            final(self).graphics_state_changed,
            final(self).command_buffer == old(self).command_buffer,
            final(self).allocator == old(self).allocator,
            final(self).graphics_key@ == (KeyView {
                color_attachment: old(color_attachment).format,
                depth_attachment: match depth_attachment {
                    Some(depth) => depth.format,
                    None => old(self).graphics_key@.depth_attachment,
                },
                ..old(self).graphics_key@
            }),
            *final(color_attachment) == (ImageVulkan {
                layout: ImageLayout::Attachment,
                ..*old(color_attachment)
            }),
            match depth_attachment {
                Some(depth) => *final(depth) == (ImageVulkan {
                    layout: ImageLayout::DepthAttachment,
                    ..*depth
                }),
                None => true,
            },
            info.region == region,
            info.color_view == old(color_attachment).view,
            info.depth_view == match depth_attachment {
                Some(depth) => Some(depth.view),
                None => None,
            },
            info.barriers@ == match depth_attachment {
                Some(depth) => barrier_list(depth.spec_transition(ImageLayout::DepthAttachment)),
                None => Seq::empty(),
            } + barrier_list(old(color_attachment).spec_transition(ImageLayout::Attachment)),
    {
        self.graphics_state_changed = true;
        self.graphics_key.color_attachment = color_attachment.format;
        let mut barriers: Vec<LayoutBarrier> = Vec::new();
        let mut depth_view: Option<u64> = None;
        if let Some(depth) = depth_attachment {
            if let Some(barrier) = depth.transition_layout(ImageLayout::DepthAttachment) {
                barriers.push(barrier);
            }
            self.graphics_key.depth_attachment = depth.format;
            depth_view = Some(depth.view);
        }
        if let Some(barrier) = color_attachment.transition_layout(ImageLayout::Attachment) {
            barriers.push(barrier);
        }
        assert(self.graphics_key@.shaders =~= old(self).graphics_key@.shaders);
        RenderingInfo { barriers, region, color_view: color_attachment.view, depth_view }
    }

    /// Binds shader binaries from the first position of the render state on;
    /// positions after them keep what they hold.
    pub fn bind_shaders(&mut self, shaders: &[&'static [u8]])
        requires
            shaders@.len() <= MAX_SHADERS,
        ensures
            final(self).graphics_state_changed,
            final(self).command_buffer == old(self).command_buffer,
            final(self).allocator == old(self).allocator,
            final(self).graphics_key@ == (KeyView {
                shaders: spec_bound(old(self).graphics_key@.shaders, shaders@),
                ..old(self).graphics_key@
            }),
    {
        self.graphics_state_changed = true;
        let first = if shaders.len() > 0 {
            Some(shaders[0])
        } else {
            self.graphics_key.shaders[0]
        };
        let second = if shaders.len() > 1 {
            Some(shaders[1])
        } else {
            self.graphics_key.shaders[1]
        };
        self.graphics_key.shaders = [first, second];
        assert(self.graphics_key@.shaders =~= spec_bound(
            old(self).graphics_key@.shaders,
            shaders@,
        )) by {
            assert(old(self).graphics_key@.shaders[0] == shader_bytes(
                old(self).graphics_key.shaders@[0],
            ));
            assert(old(self).graphics_key@.shaders[1] == shader_bytes(
                old(self).graphics_key.shaders@[1],
            ));
        }
    }

    /// Turns blending on with the given equations for colour and alpha.
    pub fn enable_color_blend(
        &mut self,
        src_blend: BlendFactor,
        dst_blend: BlendFactor,
        blend_op: BlendOp,
        src_blend_alpha: BlendFactor,
        dst_blend_alpha: BlendFactor,
        blend_alpha: BlendOp,
    )
        ensures
            final(self).graphics_state_changed,
            final(self).command_buffer == old(self).command_buffer,
            final(self).allocator == old(self).allocator,
            final(self).graphics_key@ == (KeyView {
                blend_enable: true,
                src_blend,
                dst_blend,
                blend_op,
                src_blend_alpha,
                dst_blend_alpha,
                blend_alpha,
                ..old(self).graphics_key@
            }),
    {
        self.graphics_key.blend_enable = true;
        self.graphics_key.src_blend = src_blend;
        self.graphics_key.dst_blend = dst_blend;
        self.graphics_key.blend_op = blend_op;
        self.graphics_key.src_blend_alpha = src_blend_alpha;
        self.graphics_key.dst_blend_alpha = dst_blend_alpha;
        self.graphics_key.blend_alpha = blend_alpha;
        self.graphics_state_changed = true;
        assert(self.graphics_key@.shaders =~= old(self).graphics_key@.shaders);
    }

    /// The key of the pipeline that a draw has to bind first: the recorded
    /// render state, or nothing when no render state was recorded.
    pub fn bind_pipeline_if_needed(&self) -> (key: Option<GraphicsPipelineKey>)
        ensures
            key == if self.graphics_state_changed {
                Some(self.graphics_key)
            } else {
                None
            },
    {
        if !self.graphics_state_changed {
            return None;
        }
        Some(self.graphics_key)
    }

    /// Prepares the current image of a swapchain for presentation: returns
    /// the barrier that moves it into the present layout, if it is not there.
    pub fn present(&self, swapchain: &mut SwapchainVulkan) -> (barrier: Option<LayoutBarrier>)
        requires
            old(swapchain).wf(),
        ensures
            final(swapchain).wf(),
            barrier == old(swapchain).images()[old(swapchain).image_index() as int].spec_transition(ImageLayout::PresentSrc),
            final(swapchain).images() == old(swapchain).images().update(
                old(swapchain).image_index() as int,
                ImageVulkan {
                    layout: ImageLayout::PresentSrc,
                    ..old(swapchain).images()[old(swapchain).image_index() as int]
                },
            ),
            final(swapchain).surface() == old(swapchain).surface(),
            final(swapchain).surface_format() == old(swapchain).surface_format(),
            final(swapchain).swapchain() == old(swapchain).swapchain(),
            final(swapchain).image_index() == old(swapchain).image_index(),
            final(swapchain).semaphores() == old(swapchain).semaphores(),
            final(swapchain).semaphore_index() == old(swapchain).semaphore_index(),
            final(swapchain).spec_size() == old(swapchain).spec_size(),
            final(swapchain).dirty() == old(swapchain).dirty(),
    {
        swapchain.transition_current_image(ImageLayout::PresentSrc)
    }
}

} // verus!
