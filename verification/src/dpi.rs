//! Sizes in physical pixels.

use vstd::prelude::*;

verus! {

/// A size in physical pixels.
#[derive(Debug, Clone, Copy, PartialEq, Eq, Structural)]
pub struct PhysicalSize<P> {
    pub width: P,
    pub height: P,
}

impl<P> PhysicalSize<P> {
    /// The size of the given width and height.
    pub fn new(width: P, height: P) -> (size: Self)
        ensures
            size.width == width,
            size.height == height,
    {
        PhysicalSize { width, height }
    }
}

} // verus!
