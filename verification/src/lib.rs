//! Binds a GPU-composited 2D renderer to a portable GPU abstraction layer.
//!
//! The native work — creating devices, wrapping swapchain textures, recording
//! and submitting GPU commands — belongs to the two wrapped native libraries
//! and to the embedding application. This crate holds the decisions that sit
//! between those calls, stated over plain values and verified: which
//! presentation format is negotiated, which pixel formats an imported texture
//! may have, how the swapchain configuration evolves across resizes, which
//! textures still await a sampling transition, and in what order a frame's
//! command batches are submitted.

pub mod backend;
pub mod dx12;
pub mod error;
pub mod format;
pub mod metal;
pub mod surface;
pub mod vulkan;
