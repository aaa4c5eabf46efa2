use vstd::prelude::*;

verus! {

/// Why a track's parameters do not allow playback.
#[derive(Debug, Clone, Copy, PartialEq, Eq, Structural)]
pub enum OpenError {
    /// The codec parameters carry no (or a zero) sample rate.
    NoSampleRate,
    /// The codec parameters carry no (or an empty) channel layout.
    NoChannels,
    /// The codec parameters carry no frame count.
    NoDuration,
    /// The track is too long to be counted in interleaved samples or in nanoseconds.
    TooLong,
    /// Two seconds of audio at this rate and channel count do not fit in memory.
    BufferTooLarge,
}

/// Why a seek was refused.
#[derive(Debug, Clone, Copy, PartialEq, Eq, Structural)]
pub enum SeekError {
    /// The requested time lies at or past the end of the track.
    OutOfRange,
    /// The underlying source could not be repositioned.
    Source,
}

/// Why a transport command could not run.
#[derive(Debug, Clone, Copy, PartialEq, Eq, Structural)]
pub enum TransportError {
    /// The command needs an output stream and none is open.
    NoStream,
}

} // verus!
