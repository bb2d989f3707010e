//! The error cases that the recording layer itself can detect.

use vstd::prelude::*;

verus! {

/// Input validation and construction failures surfaced by this layer.
///
/// Everything a renderer could additionally fail on (allocation, device
/// loss) lies behind the engine boundary and is not represented here.
#[derive(Clone, Copy, Debug, PartialEq, Eq, Structural)]
pub enum Error {
    /// A texture was requested with a zero width or height.
    ZeroTextureDimension,
    /// A pixel buffer's length does not equal `width * height * 4`.
    TextureBufferSizeMismatch,
    /// A string carries an embedded NUL byte and cannot cross the engine
    /// boundary as a C string.
    EmbeddedNul,
    /// The engine's reported version differs from the version this layer
    /// was built against.
    VersionMismatch,
}

} // verus!
