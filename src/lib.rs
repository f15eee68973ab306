//! Pitch analysis and channel reduction over decoded audio.
//!
//! Sample values and frequencies are carried as the bit patterns of 32-bit
//! IEEE-754 values: for non-negative, non-NaN values the unsigned integer
//! order of the bit patterns is exactly the numeric order, which is all the
//! range filter and the sort need.
mod error;
mod layout;
mod windows;
mod pitch;
mod report;
mod decoding;
mod pipeline;

pub use error::{AvasaraError, DecodeFault, LayoutFault};
pub use layout::{channel_layout, plan_reduction, ChannelLayout, MonoPlan};
pub use windows::{windows, window_count, window_end, Window, ANALYSIS_CHUNK, ENCODE_BLOCK};
pub use pitch::{
    collect_candidates, filter_and_trim, filter_in_range, found, in_range, is_sorted,
    law_candidates_per_window, law_trim_length, round_tenth, sort_frequencies, trim_count,
    trim_tails, trimmed, trims_to, Candidate, FrequencyBounds, POSITIVE_INFINITY_BITS,
};
pub use report::{median_of, report_parts, summarize, Median, ReportParts};
pub use decoding::{DecodeOutcome, DecodeSession, ReadAction, ReadOutcome};
pub use pipeline::{encoder_sample_rate, finish_output, validate_stream};
