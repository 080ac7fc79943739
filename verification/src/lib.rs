//! Frame-presentation and GPU-resource lifecycle core of a real-time 3D
//! engine.
//!
//! The library models every driver-owned object (buffers, images, swapchain
//! images, synchronization primitives) as plain data keyed by integer
//! handles, so that the decision logic of the engine — adapter selection,
//! swapchain sizing and recreation, staged uploads, resource residency and
//! the per-frame draw loop — is stated in contracts and proved. A thin
//! driver around the library performs the actual graphics-API calls that
//! correspond to each decision.
#![allow(unused_imports)]

pub mod assets;
pub mod context;
pub mod device;
pub mod error;
pub mod geometry;
pub mod ids;
pub mod material;
pub mod memory;
pub mod mesh;
pub mod path_wrangler;
pub mod physical_device;
pub mod renderer;
pub mod shader;
pub mod swapchain;
pub mod sync_pool;
pub mod texture;
pub mod timer;
pub mod types;
pub mod vulkan_resource;
