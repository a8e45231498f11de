//! Sizes in pixels, and the things that have one.

use vstd::prelude::*;

verus! {

/// A width and a height.
pub trait Resolution<T>: Copy {
    /// Whether `get_width` may return `width`. An implementation that does
    /// not say promises nothing of its width.
    open spec fn has_width(&self, width: T) -> bool {
        true
    }

    /// Whether `get_height` may return `height`. An implementation that does
    /// not say promises nothing of its height.
    open spec fn has_height(&self, height: T) -> bool {
        true
    }

    fn get_width(&self) -> (width: T)
        ensures
            self.has_width(width),
    ;

    fn get_height(&self) -> (height: T)
        ensures
            self.has_height(height),
    ;
}

/// Something that can say how large it is, such as a window.
pub trait GetResolution<T> {
    type Resolution: Resolution<T>;

    fn get_resolution(&self) -> Self::Resolution;
}

/// A size in whole pixels.
#[derive(Clone, Copy, Debug, PartialEq, Eq, Structural)]
pub struct Extent {
    pub width: u32,
    pub height: u32,
}

impl Resolution<u32> for Extent {
    open spec fn has_width(&self, width: u32) -> bool {
        width == self.width
    }

    open spec fn has_height(&self, height: u32) -> bool {
        height == self.height
    }

    fn get_width(&self) -> (width: u32) {
        self.width
    }

    fn get_height(&self) -> (height: u32) {
        self.height
    }
}

impl GetResolution<u32> for Extent {
    type Resolution = Extent;

    fn get_resolution(&self) -> (resolution: Extent)
        ensures
            resolution == *self,
    {
        *self
    }
}

} // verus!
