//! Plain value types shared across the engine core.
//!
//! Every driver-owned object is referred to by an integer `Handle`; the
//! driver around the library keeps the mapping from handles to its own
//! objects. `0` is reserved as the null handle.
use vstd::prelude::*;

verus! {

/// Identifier of one driver-owned object (buffer, image, semaphore, ...):
/// its position in the table of its object class.
pub type Handle = usize;

/// The reserved null handle.
pub const NULL_HANDLE: Handle = 0;

/// A surface or image size in pixels.
#[derive(Clone, Copy, PartialEq, Eq, Structural, Debug)]
pub struct Extent2D {
    pub width: u32,
    pub height: u32,
}

impl Extent2D {
    pub fn new(width: u32, height: u32) -> (r: Extent2D)
        ensures
            r.width == width,
            r.height == height,
    {
        Extent2D { width, height }
    }
}

} // verus!
