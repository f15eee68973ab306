use vstd::multiset::Multiset;
use vstd::prelude::*;

use crate::error::AvasaraError;
use crate::windows::window_count;

verus! {

broadcast use vstd::seq_lib::group_to_multiset_ensures;

/// One estimate for one analysis window: a frequency in Hz and the
/// estimator's clarity, both as 32-bit IEEE-754 bit patterns.
#[derive(Clone, Copy, Debug, PartialEq, Eq, Structural)]
pub struct Candidate {
    pub frequency: u32,
    pub clarity: u32,
}

/// The bit pattern of the smallest positive infinity; every positive finite
/// value lies strictly between zero and it.
pub const POSITIVE_INFINITY_BITS: u32 = 0x7f80_0000;

/// The acceptance window for candidates, bounds as bit patterns.
#[derive(Clone, Copy, Debug, PartialEq, Eq, Structural)]
pub struct FrequencyBounds {
    pub min: u32,
    pub max: u32,
}

impl FrequencyBounds {
    /// Both bounds positive and finite, and `min < max`. On such bounds the
    /// integer comparison of bit patterns agrees with the numeric comparison
    /// for every value, NaNs and negative values included (they are rejected).
    pub open spec fn wf(self) -> bool {
        0 < self.min < self.max < POSITIVE_INFINITY_BITS
    }

    pub open spec fn admits(self, frequency: u32) -> bool {
        self.min < frequency < self.max
    }

    /// Builds a bound pair, refusing one that is not positive, finite and
    /// strictly increasing.
    pub fn new(min: u32, max: u32) -> (r: Option<FrequencyBounds>)
        ensures
            r is Some <==> (FrequencyBounds { min, max }).wf(),
            r is Some ==> r == Some(FrequencyBounds { min, max }),
    {
        if 0 < min && min < max && max < POSITIVE_INFINITY_BITS {
            Some(FrequencyBounds { min, max })
        } else {
            None
        }
    }
}

/// The estimates that were found, in window order.
pub open spec fn found(estimates: Seq<Option<Candidate>>) -> Seq<Candidate>
    decreases estimates.len(),
{
    if estimates.len() == 0 {
        Seq::empty()
    } else {
        let rest = found(estimates.drop_last());
        match estimates.last() {
            Some(c) => rest.push(c),
            None => rest,
        }
    }
}

/// The frequencies of the candidates that `bounds` admits, in order.
pub open spec fn in_range(candidates: Seq<Candidate>, bounds: FrequencyBounds) -> Seq<u32>
    decreases candidates.len(),
{
    if candidates.len() == 0 {
        Seq::empty()
    } else {
        let rest = in_range(candidates.drop_last(), bounds);
        let f = candidates.last().frequency;
        if bounds.admits(f) {
            rest.push(f)
        } else {
            rest
        }
    }
}

pub open spec fn is_sorted(s: Seq<u32>) -> bool {
    forall|i: int, j: int| 0 <= i <= j < s.len() ==> s[i] <= s[j]
}

/// `n / 10` rounded to the nearest integer, halves away from zero.
pub open spec fn round_tenth(n: nat) -> nat {
    if n % 10 >= 5 {
        n / 10 + 1
    } else {
        n / 10
    }
}

/// How many values are cut from each end of `n` sorted values: a tenth of
/// `n`, rounded half away from zero, and never so many that nothing is left
/// of a non-empty set.
pub open spec fn trim_count(n: nat) -> nat {
    let tenth = round_tenth(n);
    if n > 0 && tenth > (n - 1) as nat / 2 {
        ((n - 1) as nat / 2) as nat
    } else {
        tenth as nat
    }
}

/// `s` without its lowest and highest `trim_count` values.
pub open spec fn trimmed(s: Seq<u32>) -> Seq<u32> {
    let k = trim_count(s.len());
    s.subrange(k as int, s.len() - k)
}

/// `out` is what trimming the sorted arrangement of `values` leaves.
pub open spec fn trims_to(values: Seq<u32>, out: Seq<u32>) -> bool {
    exists|s: Seq<u32>|
        is_sorted(s) && #[trigger] s.to_multiset() == values.to_multiset() && out == trimmed(s)
}

proof fn lemma_found_len(estimates: Seq<Option<Candidate>>)
    ensures
        found(estimates).len() <= estimates.len(),
    decreases estimates.len(),
{
    if estimates.len() > 0 {
        lemma_found_len(estimates.drop_last());
    }
}

proof fn lemma_in_range_len(candidates: Seq<Candidate>, bounds: FrequencyBounds)
    ensures
        in_range(candidates, bounds).len() <= candidates.len(),
    decreases candidates.len(),
{
    if candidates.len() > 0 {
        lemma_in_range_len(candidates.drop_last(), bounds);
    }
}

/// Keeps the windows' estimates that were found, dropping the windows for
/// which the estimator found no pitch, in window order.
pub fn collect_candidates(estimates: &Vec<Option<Candidate>>) -> (r: Vec<Candidate>)
    ensures
        r@ == found(estimates@),
        r.len() <= estimates.len(),
{
    let mut r: Vec<Candidate> = Vec::new();
    for i in 0..estimates.len()
        invariant
            r@ == found(estimates@.subrange(0, i as int)),
    {
        assert(estimates@.subrange(0, i + 1).drop_last() =~= estimates@.subrange(0, i as int));
        if let Some(c) = estimates[i] {
            r.push(c);
        }
    }
    assert(estimates@.subrange(0, estimates.len() as int) =~= estimates@);
    proof {
        lemma_found_len(estimates@);
    }
    r
}

/// The frequencies of the candidates strictly inside `bounds`, in order; the
/// clarity plays no part.
pub fn filter_in_range(candidates: &Vec<Candidate>, bounds: FrequencyBounds) -> (r: Vec<u32>)
    ensures
        r@ == in_range(candidates@, bounds),
        r.len() <= candidates.len(),
{
    let mut r: Vec<u32> = Vec::new();
    for i in 0..candidates.len()
        invariant
            r@ == in_range(candidates@.subrange(0, i as int), bounds),
    {
        assert(candidates@.subrange(0, i + 1).drop_last() =~= candidates@.subrange(0, i as int));
        let f = candidates[i].frequency;
        if bounds.min < f && f < bounds.max {
            r.push(f);
        }
    }
    assert(candidates@.subrange(0, candidates.len() as int) =~= candidates@);
    proof {
        lemma_in_range_len(candidates@, bounds);
    }
    r
}

/// Sorts frequencies ascending.
pub fn sort_frequencies(v: Vec<u32>) -> (r: Vec<u32>)
    ensures
        is_sorted(r@),
        r@.to_multiset() == v@.to_multiset(),
{
    let mut rest = v;
    let mut r: Vec<u32> = Vec::new();
    while rest.len() > 0
        invariant
            is_sorted(r@),
            r@.to_multiset().add(rest@.to_multiset()) == v@.to_multiset(),
            forall|i: int, j: int| 0 <= i < r.len() && 0 <= j < rest.len() ==> r[i] <= rest[j],
        decreases rest.len(),
    {
        let mut m: usize = 0;
        for j in 1..rest.len()
            invariant
                m < rest.len(),
                forall|k: int| 0 <= k < j ==> rest[m as int] <= rest[k],
        {
            if rest[j] < rest[m] {
                m = j;
            }
        }
        let ghost before = rest@;
        let x = rest.remove(m);
        proof {
            assert(rest@ == before.remove(m as int));
            assert forall|j: int| 0 <= j < rest.len() implies x <= rest[j] by {
                if j < m {
                    assert(rest[j] == before[j]);
                } else {
                    assert(rest[j] == before[j + 1]);
                }
            }
        }
        r.push(x);
        proof {
            assert(before.to_multiset() == rest@.to_multiset().insert(x)) by {
                assert(before.remove(m as int).to_multiset() == before.to_multiset().remove(
                    before[m as int],
                ));
            }
            assert forall|i: int, j: int| 0 <= i < r.len() && 0 <= j < rest.len() implies r[i]
                <= rest[j] by {
                if j < m {
                    assert(rest[j] == before[j]);
                } else {
                    assert(rest[j] == before[j + 1]);
                }
            }
            assert(r@.to_multiset().add(rest@.to_multiset()) =~= v@.to_multiset());
        }
    }
    assert(rest@.to_multiset() =~= Multiset::empty());
    assert(r@.to_multiset().add(Multiset::empty()) =~= r@.to_multiset());
    r
}

/// Cuts `trim_count` values from each end of sorted `v`.
pub fn trim_tails(v: Vec<u32>) -> (r: Vec<u32>)
    ensures
        r@ == trimmed(v@),
{
    let n = v.len();
    let tenth: usize = if n % 10 >= 5 {
        n / 10 + 1
    } else {
        n / 10
    };
    let k: usize = if n > 0 && tenth > (n - 1) / 2 {
        (n - 1) / 2
    } else {
        tenth
    };
    let mut r: Vec<u32> = Vec::new();
    let mut i: usize = k;
    while i < n - k
        invariant
            k == trim_count(n as nat),
            n == v.len(),
            k <= i <= n - k,
            r@ == v@.subrange(k as int, i as int),
        decreases n - k - i,
    {
        r.push(v[i]);
        i = i + 1;
        assert(r@ =~= v@.subrange(k as int, i as int));
    }
    r
}

/// Range-filters the candidates' frequencies against `bounds`, sorts them
/// ascending and trims a tenth from each end. Fails when no frequency lies
/// strictly inside the bounds.
pub fn filter_and_trim(candidates: &Vec<Candidate>, bounds: FrequencyBounds) -> (r: Result<
    Vec<u32>,
    AvasaraError,
>)
    ensures
        r is Err <==> in_range(candidates@, bounds).len() == 0,
        r is Err ==> r == Err::<Vec<u32>, AvasaraError>(AvasaraError::NoPitchCandidates),
        r matches Ok(v) ==> is_sorted(v@) && trims_to(in_range(candidates@, bounds), v@),
{
    let kept = filter_in_range(candidates, bounds);
    if kept.len() == 0 {
        return Err(AvasaraError::NoPitchCandidates);
    }
    let ghost kept_view = kept@;
    let sorted = sort_frequencies(kept);
    let ghost sorted_view = sorted@;
    let out = trim_tails(sorted);
    assert(is_sorted(out@));
    assert(trims_to(kept_view, out@)) by {
        assert(is_sorted(sorted_view) && sorted_view.to_multiset() == kept_view.to_multiset());
    }
    Ok(out)
}

/// A sorted arrangement of a sequence keeps its length.
proof fn lemma_arrangement_len(s: Seq<u32>, values: Seq<u32>)
    requires
        s.to_multiset() == values.to_multiset(),
    ensures
        s.len() == values.len(),
{
    s.to_multiset_ensures();
    values.to_multiset_ensures();
}

/// Trimming leaves the range-filtered frequencies less a rounded tenth at each
/// end: never more than were filtered, and at least one when any was.
pub proof fn law_trim_length(values: Seq<u32>, out: Seq<u32>)
    requires
        trims_to(values, out),
    ensures
        out.len() <= values.len(),
        out.len() == values.len() - 2 * round_tenth(values.len()),
        values.len() > 0 ==> out.len() > 0,
{
    let s = choose|s: Seq<u32>|
        is_sorted(s) && #[trigger] s.to_multiset() == values.to_multiset() && out == trimmed(s);
    lemma_arrangement_len(s, values);
    let n = values.len();
    assert(n > 0 ==> round_tenth(n) <= (n - 1) as nat / 2);
}

/// A window for which the estimator found nothing is dropped, so no more
/// candidates come out than windows went in; cutting `len` samples into
/// windows of `size` makes `len / size` rounded up of them.
pub proof fn law_candidates_per_window(len: nat, size: nat, estimates: Seq<Option<Candidate>>)
    requires
        size > 0,
        estimates.len() == window_count(len, size),
    ensures
        found(estimates).len() <= window_count(len, size),
{
    lemma_found_len(estimates);
}

} // verus!
