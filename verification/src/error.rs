//! Error taxonomy of the framework: fatal initialization failures and the
//! classified surface errors that the frame state machine branches on.

use vstd::prelude::*;

verus! {

/// Failure to bring up the GPU: no compatible adapter or device exists, or
/// the surface reports no usable pixel format. Fatal; there is no usable GPU
/// to recover with.
#[derive(Copy, Clone, Debug, PartialEq, Eq, Structural)]
pub enum InitError {
    /// No adapter compatible with the presentation surface was found.
    NoAdapter,
    /// The adapter refused to provide a logical device and queue.
    NoDevice,
    /// The surface reports no preferred pixel format for the adapter.
    NoFormat,
}

impl InitError {
    /// A short diagnostic text for this error.
    pub fn Describe(&self) -> (r: &'static str)
        ensures
            self is NoAdapter ==> r@ == "no compatible GPU adapter"@,
            self is NoDevice ==> r@ == "no GPU device"@,
            self is NoFormat ==> r@ == "no preferred surface format"@,
    {
        match self {
            InitError::NoAdapter => "no compatible GPU adapter",
            InitError::NoDevice => "no GPU device",
            InitError::NoFormat => "no preferred surface format",
        }
    }
}

/// Result of a failed attempt to acquire or present a surface image.
#[derive(Copy, Clone, Debug, PartialEq, Eq, Structural)]
pub enum SurfaceError {
    /// Acquisition timed out; expected to clear on a later frame.
    Timeout,
    /// The surface no longer matches the window; expected to clear once the
    /// surface is reconfigured at the current size.
    Outdated,
    /// The surface was invalidated and must be reconfigured before the next
    /// frame; recoverable.
    Lost,
    /// The driver is out of memory; fatal.
    OutOfMemory,
}

} // verus!
