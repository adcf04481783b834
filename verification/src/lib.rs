//! Verified core of a small Vulkan rendering engine: the decisions the
//! renderer takes between driver calls (memory-type choice, swapchain
//! configuration, queue-family choice, frame pacing, draw planning) and the
//! plain-data scene, registry and snapshot logic around it.
pub mod error;
pub mod memory;
pub mod buffer;
pub mod swapchain;
pub mod device;
pub mod frame;
pub mod mesh;
pub mod scene;
pub mod registry;
pub mod snapshot;
pub mod pipeline;
