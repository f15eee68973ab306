use vstd::prelude::*;

use crate::error::{AvasaraError, LayoutFault};

verus! {

/// The channel layouts that can be reduced to mono.
#[derive(Clone, Copy, Debug, PartialEq, Eq, Structural)]
pub enum ChannelLayout {
    Mono,
    Stereo,
}

/// Classifies an interleaved buffer's channel count.
pub fn channel_layout(channels: usize) -> (r: Result<ChannelLayout, AvasaraError>)
    ensures
        channels == 1 <==> r == Ok::<ChannelLayout, AvasaraError>(ChannelLayout::Mono),
        channels == 2 <==> r == Ok::<ChannelLayout, AvasaraError>(ChannelLayout::Stereo),
        channels == 0 <==> r == Err::<ChannelLayout, AvasaraError>(
            AvasaraError::UnsupportedChannelLayout(LayoutFault::NoChannels),
        ),
        channels > 2 <==> r == Err::<ChannelLayout, AvasaraError>(
            AvasaraError::UnsupportedChannelLayout(LayoutFault::TooManyChannels),
        ),
{
    if channels == 1 {
        Ok(ChannelLayout::Mono)
    } else if channels == 2 {
        Ok(ChannelLayout::Stereo)
    } else if channels == 0 {
        Err(AvasaraError::UnsupportedChannelLayout(LayoutFault::NoChannels))
    } else {
        Err(AvasaraError::UnsupportedChannelLayout(LayoutFault::TooManyChannels))
    }
}

/// What reducing a buffer to one channel produces: the layout it came from,
/// the number of mono samples, and the unchanged sample rate.
#[derive(Clone, Copy, Debug, PartialEq, Eq, Structural)]
pub struct MonoPlan {
    pub source: ChannelLayout,
    pub frames: usize,
    pub sample_rate: u32,
}

/// Plans the reduction of an interleaved buffer of `sample_count` values to a
/// single channel. A mono buffer is kept as it is; a stereo buffer of `2n`
/// values becomes `n` values, the `i`-th one mixed from values `2i` and
/// `2i + 1`. Any other channel count is refused.
pub fn plan_reduction(sample_count: usize, sample_rate: u32, channels: usize) -> (r: Result<
    MonoPlan,
    AvasaraError,
>)
    requires
        channels > 0 ==> sample_count % channels == 0,
    ensures
        channels == 1 ==> r == Ok::<MonoPlan, AvasaraError>(
            (MonoPlan { source: ChannelLayout::Mono, frames: sample_count, sample_rate }),
        ),
        channels == 2 ==> r == Ok::<MonoPlan, AvasaraError>(
            (MonoPlan {
                source: ChannelLayout::Stereo,
                frames: sample_count / 2,
                sample_rate,
            }),
        ),
        channels == 0 ==> r == Err::<MonoPlan, AvasaraError>(
            AvasaraError::UnsupportedChannelLayout(LayoutFault::NoChannels),
        ),
        channels > 2 ==> r == Err::<MonoPlan, AvasaraError>(
            AvasaraError::UnsupportedChannelLayout(LayoutFault::TooManyChannels),
        ),
{
    match channel_layout(channels) {
        Ok(ChannelLayout::Mono) => Ok(
            MonoPlan { source: ChannelLayout::Mono, frames: sample_count, sample_rate },
        ),
        Ok(ChannelLayout::Stereo) => Ok(
            MonoPlan { source: ChannelLayout::Stereo, frames: sample_count / 2, sample_rate },
        ),
        Err(e) => Err(e),
    }
}

} // verus!
