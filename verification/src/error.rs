//! Errors reported to the caller of a surface.
use vstd::prelude::*;

verus! {

/// Why the native layer could not serve a request.
#[derive(Debug, Clone, Copy, PartialEq, Eq, Structural)]
pub enum PlatformFailure {
    /// A handle names no native object (a null address or a zero identifier).
    InvalidHandle,
    /// The handle belongs to a windowing system that has no adapter, or to
    /// another one than the context it is used with.
    UnsupportedPlatform,
    /// The native layer could not allocate a presentation target.
    AllocationFailed,
    /// The connection to the display or compositor is gone.
    Disconnected,
}

/// Every way an operation on a context or surface can fail.
#[derive(Debug, Clone, Copy, PartialEq, Eq, Structural)]
pub enum SoftBufferError {
    /// A native call failed. Never retried: the caller decides what to do.
    Platform(PlatformFailure),
    /// The buffer length is not `width * height`, or the size passed along
    /// with it is not the size the surface was last resized to.
    SizeMismatch,
    /// A resize to a width or height of zero.
    InvalidSize,
    /// A present on a surface that was never resized.
    UnsizedSurface,
}

} // verus!
