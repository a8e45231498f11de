//! What can go wrong outside the library, by kind.

use vstd::prelude::*;

verus! {

/// The failures of setting up and of drawing.
#[derive(Clone, Copy, Debug, PartialEq, Eq, Structural)]
pub enum Error {
    /// No surface could be created for the window.
    CreateSurface,
    /// No adapter fits the surface.
    RequestAdapter,
    /// The adapter gave no device.
    RequestDevice,
    /// The window system refused.
    Os,
    /// The event loop could not be made or run.
    EventLoop,
    /// The frame's texture could not be had this time.
    AcquireTexture,
}

impl Error {
    /// Whether trying again later can help: only a frame's texture is worth
    /// a second try, every failure of setting up is final.
    pub fn is_transient(&self) -> (transient: bool)
        ensures
            transient == (*self == Error::AcquireTexture),
    {
        match self {
            Error::AcquireTexture => true,
            _ => false,
        }
    }
}

} // verus!
