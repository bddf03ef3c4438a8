//! Device, swapchain, memory and frame-synchronisation logic of a small
//! Vulkan renderer, kept apart from the driver calls that carry it out.
pub mod device;
pub mod swapchain;
pub mod instance;
pub mod memory;
pub mod sync;
pub mod frame;
pub mod lifecycle;
pub mod commands;
pub mod shaders;
