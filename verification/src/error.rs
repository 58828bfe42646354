//! The errors a caller can meet at the boundary of the player.

use vstd::prelude::*;

verus! {

/// What can go wrong while constructing or running a stream.
#[derive(Clone, Copy, Debug, PartialEq, Eq, Structural)]
pub enum SoundError {
    /// The resource to play does not exist.
    ResourceNotFound,
    /// The resource exists but is not in a format that can be played.
    UnsupportedFormat,
    /// The decoder failed in the middle of the stream.
    DecodeFailure,
    /// The output device rejected a buffer or went away. The kind does not
    /// tell which: whether a stream has lost its device, and so has ended,
    /// is told by `PlaybackState::is_lost`.
    DeviceUnavailable,
    /// There is no device context to create a source in.
    InvalidContext,
}

/// Why a decoder could not open a resource.
#[derive(Clone, Copy, Debug, PartialEq, Eq, Structural)]
pub enum OpenFailure {
    /// No resource by that name.
    NotFound,
    /// The resource is not something the decoder understands.
    Format,
}

impl OpenFailure {
    /// The boundary error a failure to open is reported as.
    pub open spec fn spec_error(self) -> SoundError {
        match self {
            OpenFailure::NotFound => SoundError::ResourceNotFound,
            OpenFailure::Format => SoundError::UnsupportedFormat,
        }
    }

    /// The boundary error a failure to open is reported as.
    pub fn error(self) -> (error: SoundError)
        ensures
            error == self.spec_error(),
    {
        match self {
            OpenFailure::NotFound => SoundError::ResourceNotFound,
            OpenFailure::Format => SoundError::UnsupportedFormat,
        }
    }
}

} // verus!
