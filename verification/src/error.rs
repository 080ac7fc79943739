//! The engine's error taxonomy.
//!
//! Every variant is a fatal condition: a missing capability of the
//! environment or a caller contract violation. Recoverable swapchain
//! conditions (out of date, resize pending) are never reported through this
//! type; they are absorbed by the recreate-on-next-frame policy.
use crate::ids::AssetId;
use vstd::prelude::*;

verus! {

/// A fatal, non-recoverable condition.
#[derive(Clone, Copy, PartialEq, Eq, Structural, Debug)]
pub enum EngineError {
    /// No adapter satisfies the hard device constraints.
    NoSuitableAdapter,
    /// No memory type matches the requested type filter and property flags.
    NoCompatibleMemoryType,
    /// An image layout transition pair outside the supported upload protocol.
    UnsupportedLayoutTransition,
    /// Shader bytecode that is not a well-formed binary module.
    MalformedShader,
    /// A drawable refers to a mesh that was never registered.
    MissingMesh(AssetId),
    /// A submesh refers to a material that was never registered.
    MissingMaterial(AssetId),
    /// A material refers to a texture with no resident GPU handle.
    MissingTexture(AssetId),
    /// A material refers to a shader that was never registered.
    MissingShader(AssetId),
    /// A frame was requested while no swapchain exists (paused surface).
    SwapchainMissing,
}

} // verus!
