//! Crystal API: a unified wrapper for GPU APIs.
//!
//! This crate holds the verified core of the wrapper: the flag sets, the
//! request validation, the resource planning and the per-frame state
//! machines that decide what is handed to the graphics driver.

pub mod bitflags;
pub mod device;
pub mod errors;
pub mod images;
pub mod pipeline;
pub mod settings;
pub mod debug;
pub mod shader;
pub mod vulkan;
pub mod mesh;
pub mod object;
pub mod texture;
pub mod gpu_sampler_set;
