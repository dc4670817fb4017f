//! The decisions of a small real-time renderer, separated from the driver calls
//! that carry them out: swapchain configuration, device and queue selection,
//! memory-type selection, image layout barriers, the per-frame synchronisation
//! state machine, the recorded draw commands, and the order in which GPU
//! objects are built and destroyed.

pub mod commands;
pub mod device;
pub mod frame;
pub mod image;
pub mod lifecycle;
pub mod memory;
pub mod queue;
pub mod swapchain;
