use vstd::prelude::*;

use optivorbis::remuxer::ogg_to_ogg::{OggVorbisStreamPassthroughMangler, RemuxError};
use optivorbis::{OggToOgg, Remuxer};

use crate::error::{AvasaraError, DecodeFault};

verus! {

/// optivorbis's remux error, carried only to be mapped to an encoding failure.
#[verifier::external_type_specification]
#[verifier::external_body]
pub struct ExRemuxError(RemuxError);

/// Checks the stream parameters that a decoder reported: a zero sample rate
/// or a zero channel count means that decoding went wrong.
pub fn validate_stream(sample_rate: usize, channels: usize) -> (r: Result<(), AvasaraError>)
    ensures
        sample_rate == 0 ==> r == Err::<(), AvasaraError>(
            AvasaraError::DecodeIntegrity(DecodeFault::ZeroSampleRate),
        ),
        sample_rate != 0 && channels == 0 ==> r == Err::<(), AvasaraError>(
            AvasaraError::DecodeIntegrity(DecodeFault::ZeroChannels),
        ),
        r is Ok <==> sample_rate != 0 && channels != 0,
{
    if sample_rate == 0 {
        Err(AvasaraError::DecodeIntegrity(DecodeFault::ZeroSampleRate))
    } else if channels == 0 {
        Err(AvasaraError::DecodeIntegrity(DecodeFault::ZeroChannels))
    } else {
        Ok(())
    }
}

/// The sample rate handed to the encoder, which takes a non-zero 32-bit rate.
pub fn encoder_sample_rate(sample_rate: usize) -> (r: Result<u32, AvasaraError>)
    ensures
        0 < sample_rate <= u32::MAX ==> r == Ok::<u32, AvasaraError>(sample_rate as u32),
        !(0 < sample_rate <= u32::MAX) ==> r == Err::<u32, AvasaraError>(
            AvasaraError::EncodingFailure,
        ),
{
    if sample_rate == 0 || sample_rate > u32::MAX as usize {
        Err(AvasaraError::EncodingFailure)
    } else {
        Ok(sample_rate as u32)
    }
}

/// Relies on optivorbis's `OggToOgg::remux` with its default settings: a
/// two-pass optimizing remux of an in-memory Ogg Vorbis stream. Those settings
/// draw random stream serials, so nothing is stated of the bytes.
#[verifier::external_body]
fn remux_ogg(encoded: Vec<u8>) -> (r: Result<Vec<u8>, RemuxError>) {
    OggToOgg::<OggVorbisStreamPassthroughMangler>::new_with_defaults().remux(
        std::io::Cursor::new(encoded),
        Vec::new(),
    )
}

/// The bytes the pipeline hands out: the encoded stream as it is, or, when
/// `remux` is asked for, its remuxed form; a remux failure is an encoding
/// failure.
pub fn finish_output(encoded: Vec<u8>, remux: bool) -> (r: Result<Vec<u8>, AvasaraError>)
    ensures
        !remux ==> (r matches Ok(v) && v@ == encoded@),
        r is Err ==> remux && r == Err::<Vec<u8>, AvasaraError>(AvasaraError::EncodingFailure),
{
    if remux {
        match remux_ogg(encoded) {
            Ok(v) => Ok(v),
            Err(_) => Err(AvasaraError::EncodingFailure),
        }
    } else {
        Ok(encoded)
    }
}

} // verus!
