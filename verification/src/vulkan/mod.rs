//! Decisions of the Vulkan backend: what is requested from the driver, and
//! how its reports are interpreted.

pub mod commands;
pub mod devices;
pub mod frame;
pub mod images;
pub mod layout;
pub mod library;
pub mod memory;
pub mod presentation;
pub mod rendering;
pub mod sync;
pub mod vkbits;
