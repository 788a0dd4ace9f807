//! The error taxonomy of the compositor.

use vstd::prelude::*;

verus! {

/// Everything that can go wrong while setting up or feeding the compositor.
///
/// The setup-time errors (`SurfaceUnavailable`, `ShaderCompileError`,
/// `ProgramLinkError`) and the run-time `TextureUploadError` are fatal: the
/// instance never starts, or stops for good. `SizeMismatch` is the only
/// caller-correctable error: the producer may retry with a buffer of the
/// fixed capacity.
#[derive(Debug)]
pub enum Error {
    /// The on-page element does not exist or offers no rendering context.
    SurfaceUnavailable,
    /// A shader stage failed to compile; carries the driver's diagnostic text.
    ShaderCompileError(String),
    /// The shader program failed to link; carries the driver's diagnostic text.
    ProgramLinkError(String),
    /// Pushing the frame to the GPU texture failed.
    TextureUploadError,
    /// A submitted buffer's length is not the fixed frame capacity.
    SizeMismatch,
}

} // verus!
