//! Planning and decision logic for a small Vulkan compute (GEMM) project.
//!
//! The library computes everything that the Vulkan host code decides on
//! plain values: API version numbers, which tilings of a format can be used
//! as storage texel buffers, which physical device, queue family and memory
//! type to use, the descriptor layouts and pools to create, buffer sizes and
//! compute dispatch sizes, and the SPIR-V words of the compute shader.
//! Calls into the Vulkan driver itself are made by the host program.

pub mod vk_ops;
pub mod version;
pub mod capabilities;
pub mod selection;
pub mod plan;
pub mod shader;
