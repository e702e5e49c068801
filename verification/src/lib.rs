//! Resource-lifecycle and synchronisation core of a GPU execution layer.

pub mod bindless;
pub mod buffer;
pub mod command_list;
pub mod context;
pub mod convert;
pub mod deletion;
pub mod fence;
pub mod handles;
pub mod image;
pub mod pipeline;
pub mod queue;
pub mod sampler;
pub mod slang;
pub mod swapchain;
pub mod types;
