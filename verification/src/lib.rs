//! A graphics-device management and frame-presentation engine core,
//! modelled on the explicit Vulkan style: device selection, swapchain
//! construction and recreation, fixed-pipeline description, per-frame
//! command recording, and double-buffered frame pacing.
//!
//! Every decision the engine makes (which device to pick, which surface
//! format, extent and image count to use, when to rebuild the swapchain,
//! how the frame counter advances) is an ordinary function on plain
//! values, stated in contracts and verified. The driver calls themselves
//! are performed by an unverified host layer that feeds their outcomes
//! back into these functions.

#![allow(non_camel_case_types)]

pub mod command;
pub mod device;
pub mod pipeline;
pub mod swap_chain;
pub mod utils;
pub mod vulkan_application;

use vstd::prelude::*;

verus! {

/// The bound on concurrently recorded frames: command buffers, fences
/// and image-available semaphores all come in this many slots.
pub const MAX_FRAMES_IN_FLIGHT: usize = 2;

} // verus!
