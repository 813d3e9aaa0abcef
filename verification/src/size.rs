//! Drawable sizes in physical pixels.
use vstd::prelude::*;

verus! {

/// The smallest extent a presentable surface may be configured with.
pub const MIN_EXTENT: u32 = 1;

/// Width and height of a drawable area, in physical pixels.
#[derive(Clone, Copy, Debug, PartialEq, Eq, Structural)]
pub struct Size {
    pub width: u32,
    pub height: u32,
}

/// One extent raised to the minimum a surface accepts.
pub open spec fn clamp_extent(extent: u32) -> u32 {
    if extent < MIN_EXTENT {
        MIN_EXTENT
    } else {
        extent
    }
}

impl Size {
    /// Neither extent is degenerate.
    pub open spec fn is_drawable(self) -> bool {
        self.width >= MIN_EXTENT && self.height >= MIN_EXTENT
    }

    /// The size with each extent raised to the minimum, independently of the other.
    pub open spec fn clamped(self) -> Size {
        Size { width: clamp_extent(self.width), height: clamp_extent(self.height) }
    }

    pub fn new(width: u32, height: u32) -> (size: Size)
        ensures
            size.width == width,
            size.height == height,
    {
        Size { width, height }
    }

    /// Raises each extent below the minimum to the minimum and keeps the others,
    /// so that the result can always be handed to a surface configuration.
    pub fn clamp_to_drawable(self) -> (size: Size)
        ensures
            size == self.clamped(),
            size.is_drawable(),
            self.is_drawable() ==> size == self,
    {
        let width: u32 = if self.width < MIN_EXTENT { MIN_EXTENT } else { self.width };
        let height: u32 = if self.height < MIN_EXTENT { MIN_EXTENT } else { self.height };
        Size { width, height }
    }
}

} // verus!
