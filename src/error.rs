use vstd::prelude::*;

verus! {

/// Why a channel count cannot be reduced to a single channel.
#[derive(Clone, Copy, Debug, PartialEq, Eq, Structural)]
pub enum LayoutFault {
    /// The buffer claims to have no channels at all.
    NoChannels,
    /// The buffer has more than two channels.
    TooManyChannels,
}

/// Why decoding did not yield a usable sample buffer.
#[derive(Clone, Copy, Debug, PartialEq, Eq, Structural)]
pub enum DecodeFault {
    /// The decoder reported a sample rate of zero.
    ZeroSampleRate,
    /// The decoder reported zero channels.
    ZeroChannels,
    /// The decoder raised an error it cannot recover from.
    Fatal,
}

/// The failures of the pipeline, one kind per stage.
#[derive(Clone, Copy, Debug, PartialEq, Eq, Structural)]
pub enum AvasaraError {
    DecodeIntegrity(DecodeFault),
    UnsupportedChannelLayout(LayoutFault),
    NoPitchCandidates,
    EncodingFailure,
}

} // verus!
