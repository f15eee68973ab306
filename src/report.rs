use vstd::prelude::*;

use crate::error::AvasaraError;
use crate::pitch::{filter_and_trim, in_range, is_sorted, trims_to, Candidate, FrequencyBounds};
use crate::windows::ANALYSIS_CHUNK;

verus! {

/// The median of a sorted set: its middle value, or the two middle values
/// whose average it is.
#[derive(Clone, Copy, Debug, PartialEq, Eq, Structural)]
pub enum Median {
    Middle(u32),
    Between(u32, u32),
}

pub open spec fn median_of(s: Seq<u32>) -> Median
    recommends
        s.len() > 0,
{
    let mid = s.len() / 2;
    if s.len() % 2 == 0 {
        Median::Between(s[mid - 1], s[mid as int])
    } else {
        Median::Middle(s[mid as int])
    }
}

/// The exact parts of a pitch report over a sorted, trimmed frequency set:
/// what is picked from the set, and the counts that the usage ratio
/// `used / (total_samples / chunk_size) * 100` is formed from. Averages are
/// formed from the set by the caller.
#[derive(Clone, Copy, Debug, PartialEq, Eq, Structural)]
pub struct ReportParts {
    pub used: usize,
    pub total_samples: usize,
    pub chunk_size: usize,
    pub lowest: u32,
    pub highest: u32,
    pub median: Median,
}

/// Picks the extrema and the median of a non-empty sorted set.
pub fn report_parts(trimmed: &Vec<u32>, total_samples: usize, chunk_size: usize) -> (r:
    ReportParts)
    requires
        trimmed.len() > 0,
    ensures
        r.used == trimmed.len(),
        r.total_samples == total_samples,
        r.chunk_size == chunk_size,
        r.lowest == trimmed@.first(),
        r.highest == trimmed@.last(),
        r.median == median_of(trimmed@),
{
    let n = trimmed.len();
    let mid = n / 2;
    let median = if n % 2 == 0 {
        Median::Between(trimmed[mid - 1], trimmed[mid])
    } else {
        Median::Middle(trimmed[mid])
    };
    ReportParts {
        used: n,
        total_samples,
        chunk_size,
        lowest: trimmed[0],
        highest: trimmed[n - 1],
        median,
    }
}

/// Range-filters and trims the candidates found over `total_samples` samples
/// cut into analysis windows, and picks the report's parts from what is left,
/// which is returned beside them.
pub fn summarize(candidates: &Vec<Candidate>, bounds: FrequencyBounds, total_samples: usize) -> (r:
    Result<(ReportParts, Vec<u32>), AvasaraError>)
    ensures
        r is Err <==> in_range(candidates@, bounds).len() == 0,
        r is Err ==> r == Err::<(ReportParts, Vec<u32>), AvasaraError>(
            AvasaraError::NoPitchCandidates,
        ),
        r matches Ok((parts, v)) ==> {
            &&& is_sorted(v@)
            &&& trims_to(in_range(candidates@, bounds), v@)
            &&& v.len() > 0
            &&& parts.used == v.len()
            &&& parts.total_samples == total_samples
            &&& parts.chunk_size == ANALYSIS_CHUNK
            &&& parts.lowest == v@.first()
            &&& parts.highest == v@.last()
            &&& parts.median == median_of(v@)
        },
{
    match filter_and_trim(candidates, bounds) {
        Err(e) => Err(e),
        Ok(v) => {
            proof {
                crate::pitch::law_trim_length(in_range(candidates@, bounds), v@);
            }
            let parts = report_parts(&v, total_samples, ANALYSIS_CHUNK);
            Ok((parts, v))
        },
    }
}

} // verus!
