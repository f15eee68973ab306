use vstd::prelude::*;

use crate::error::{AvasaraError, DecodeFault};

verus! {

/// What reading the next packet from the container gave.
#[derive(Clone, Copy, Debug, PartialEq, Eq, Structural)]
pub enum ReadOutcome {
    /// A packet of the given track.
    Packet { track_id: u32 },
    /// The container has no more packets.
    EndOfStream,
    /// The demuxer asks to be reset before it can go on.
    ResetRequired,
    /// Any other read error.
    Failed,
}

/// What decoding one packet gave.
#[derive(Clone, Copy, Debug, PartialEq, Eq, Structural)]
pub enum DecodeOutcome {
    /// Samples, with the sample rate and channel count they were decoded at.
    Decoded { sample_rate: u32, channels: usize },
    /// A malformed packet or a transient read problem: the packet is skipped.
    Skippable,
    /// An error the decoder cannot recover from.
    Failed,
}

/// What the decode loop does next.
#[derive(Clone, Copy, Debug, PartialEq, Eq, Structural)]
pub enum ReadAction {
    /// Decode the packet just read and append its samples.
    Decode,
    /// Drop the packet and read the next one.
    Skip,
    /// Stop: everything has been decoded.
    Finish,
    /// Stop and discard what was decoded.
    Abort(AvasaraError),
}

/// The decisions of a decode loop over one selected track, and the stream
/// parameters seen so far (zero until a packet has been decoded).
#[derive(Clone, Copy, Debug, PartialEq, Eq, Structural)]
pub struct DecodeSession {
    pub track_id: u32,
    pub sample_rate: u32,
    pub channels: usize,
}

impl DecodeSession {
    pub fn new(track_id: u32) -> (r: DecodeSession)
        ensures
            r == (DecodeSession { track_id, sample_rate: 0, channels: 0 }),
    {
        DecodeSession { track_id, sample_rate: 0, channels: 0 }
    }

    pub open spec fn read_action(self, outcome: ReadOutcome) -> ReadAction {
        match outcome {
            ReadOutcome::Packet { track_id } => if track_id == self.track_id {
                ReadAction::Decode
            } else {
                ReadAction::Skip
            },
            ReadOutcome::EndOfStream => ReadAction::Finish,
            _ => ReadAction::Abort(AvasaraError::DecodeIntegrity(DecodeFault::Fatal)),
        }
    }

    /// Decides what to do with the result of reading a packet: packets of
    /// other tracks are skipped, the end of the stream finishes, and any
    /// other read error aborts.
    pub fn on_read(&self, outcome: ReadOutcome) -> (r: ReadAction)
        ensures
            r == self.read_action(outcome),
    {
        match outcome {
            ReadOutcome::Packet { track_id } => if track_id == self.track_id {
                ReadAction::Decode
            } else {
                ReadAction::Skip
            },
            ReadOutcome::EndOfStream => ReadAction::Finish,
            _ => ReadAction::Abort(AvasaraError::DecodeIntegrity(DecodeFault::Fatal)),
        }
    }

    /// Records the result of decoding a packet: decoded samples update the
    /// stream parameters, a skippable error changes nothing, and any other
    /// error is fatal.
    pub fn on_decode(&mut self, outcome: DecodeOutcome) -> (r: Result<(), AvasaraError>)
        ensures
            final(self).track_id == old(self).track_id,
            match outcome {
                DecodeOutcome::Decoded { sample_rate, channels } => r is Ok
                    && final(self).sample_rate == sample_rate && final(self).channels == channels,
                DecodeOutcome::Skippable => r is Ok && *final(self) == *old(self),
                DecodeOutcome::Failed => r == Err::<(), AvasaraError>(
                    AvasaraError::DecodeIntegrity(DecodeFault::Fatal),
                ) && *final(self) == *old(self),
            },
    {
        match outcome {
            DecodeOutcome::Decoded { sample_rate, channels } => {
                self.sample_rate = sample_rate;
                self.channels = channels;
                Ok(())
            },
            DecodeOutcome::Skippable => Ok(()),
            DecodeOutcome::Failed => Err(AvasaraError::DecodeIntegrity(DecodeFault::Fatal)),
        }
    }
}

} // verus!
