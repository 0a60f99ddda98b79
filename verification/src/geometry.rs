//! Rectangles in logical and in physical pixels.

use vstd::prelude::*;
use crate::display::Rotation;

verus! {

/// A size in logical pixels.
#[derive(Clone, Copy, Debug, PartialEq, Eq, Structural)]
pub struct LogicalSize {
    pub width: u32,
    pub height: u32,
}

impl LogicalSize {
    /// The square of the given side.
    pub fn square(side: u32) -> (size: LogicalSize)
        ensures
            size.width == side,
            size.height == side,
    {
        LogicalSize { width: side, height: side }
    }
}

/// A rectangle asked for in logical pixels. A request that can be served has
/// a positive width and height.
#[derive(Clone, Copy, Debug, PartialEq, Eq, Structural)]
pub struct CaptureRequest {
    pub x: i32,
    pub y: i32,
    pub width: u32,
    pub height: u32,
}

/// A rectangle in physical pixels, as the capture primitive takes it.
#[derive(Clone, Copy, Debug, PartialEq, Eq, Structural)]
pub struct PhysicalRectangle {
    pub x: i32,
    pub y: i32,
    pub width: u32,
    pub height: u32,
}

impl CaptureRequest {
    pub open spec fn size_spec(self) -> LogicalSize {
        LogicalSize { width: self.width, height: self.height }
    }

    /// The size asked for.
    pub fn size(&self) -> (size: LogicalSize)
        ensures
            size == self.size_spec(),
    {
        LogicalSize { width: self.width, height: self.height }
    }
}

impl PhysicalRectangle {
    /// The same rectangle with width and height exchanged.
    pub open spec fn swapped(self) -> PhysicalRectangle {
        PhysicalRectangle { x: self.x, y: self.y, width: self.height, height: self.width }
    }

    /// The extents along the native axes of a display turned by `rotation`:
    /// exchanged for 90 and 270 degrees, kept otherwise. The origin stays.
    pub open spec fn oriented_spec(self, rotation: Rotation) -> PhysicalRectangle {
        if rotation.swaps_axes_spec() {
            self.swapped()
        } else {
            self
        }
    }

    #[verifier::when_used_as_spec(oriented_spec)]
    pub fn oriented(self, rotation: Rotation) -> (r: PhysicalRectangle)
        ensures
            r == self.oriented_spec(rotation),
    {
        if rotation.swaps_axes() {
            PhysicalRectangle { x: self.x, y: self.y, width: self.height, height: self.width }
        } else {
            self
        }
    }

    /// Orienting twice for rotations that both exchange the axes, such as 90
    /// and then 270 degrees, gives the rectangle back; so does orienting
    /// twice for rotations that both keep them.
    pub proof fn lemma_orient_twice(self, first: Rotation, second: Rotation)
        requires
            first.swaps_axes_spec() == second.swaps_axes_spec(),
        ensures
            self.oriented_spec(first).oriented_spec(second) == self,
    {
    }

    /// Orienting for 90 degrees and then for 270 degrees restores the
    /// width and height it started with.
    pub proof fn lemma_quarter_turns_cancel(self)
        ensures
            self.oriented_spec(Rotation::Deg90).oriented_spec(Rotation::Deg270) == self,
            self.oriented_spec(Rotation::Deg270).oriented_spec(Rotation::Deg90) == self,
            self.oriented_spec(Rotation::Deg90).width == self.height,
            self.oriented_spec(Rotation::Deg90).height == self.width,
    {
    }
}

} // verus!
