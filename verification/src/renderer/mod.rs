//! What a device's renderer decides: which device and surface format to use,
//! what it owns, what one frame records, and how touches reach a shader.

pub mod blit;
pub mod compute;
pub mod creation;
pub mod device;
pub mod frame;
pub mod laws;
pub mod resize;
pub mod resource_laws;
pub mod resources;
pub mod sample;
pub mod surface;
pub mod swapchain;
pub mod touch;
