use avasara::{
    filter_and_trim, filter_in_range, sort_frequencies, trim_tails, AvasaraError, Candidate,
    FrequencyBounds,
};

fn cand(f: f32) -> Candidate {
    Candidate { frequency: f.to_bits(), clarity: 0.0f32.to_bits() }
}

fn bounds(min: f32, max: f32) -> FrequencyBounds {
    FrequencyBounds::new(min.to_bits(), max.to_bits()).unwrap()
}

fn floats(v: &[u32]) -> Vec<f32> {
    v.iter().map(|b| f32::from_bits(*b)).collect()
}

#[test]
fn bounds_must_be_positive_finite_and_increasing() {
    assert!(FrequencyBounds::new(50.0f32.to_bits(), 600.0f32.to_bits()).is_some());
    assert!(FrequencyBounds::new(600.0f32.to_bits(), 50.0f32.to_bits()).is_none());
    assert!(FrequencyBounds::new(50.0f32.to_bits(), 50.0f32.to_bits()).is_none());
    assert!(FrequencyBounds::new(0.0f32.to_bits(), 600.0f32.to_bits()).is_none());
    assert!(FrequencyBounds::new((-5.0f32).to_bits(), 600.0f32.to_bits()).is_none());
    assert!(FrequencyBounds::new(50.0f32.to_bits(), f32::INFINITY.to_bits()).is_none());
}

#[test]
fn range_filter_is_strict_and_keeps_order() {
    let c = vec![cand(50.0), cand(300.0), cand(600.0), cand(49.9), cand(120.5), cand(600.1)];
    let kept = filter_in_range(&c, bounds(50.0, 600.0));
    assert_eq!(floats(&kept), vec![300.0, 120.5]);
}

#[test]
fn range_filter_rejects_nan_and_negative() {
    let c = vec![cand(f32::NAN), cand(-440.0), cand(f32::INFINITY), cand(-0.0), cand(440.0)];
    let kept = filter_in_range(&c, bounds(50.0, 600.0));
    assert_eq!(floats(&kept), vec![440.0]);
}

#[test]
fn sort_orders_ascending() {
    let v: Vec<u32> = [300.0f32, 100.0, 250.5, 100.0, 55.0].iter().map(|f| f.to_bits()).collect();
    assert_eq!(floats(&sort_frequencies(v)), vec![55.0, 100.0, 100.0, 250.5, 300.0]);
}

#[test]
fn trim_cuts_a_rounded_tenth_from_each_end() {
    let ten: Vec<u32> = (1..=10).collect();
    assert_eq!(trim_tails(ten), (2..=9).collect::<Vec<u32>>());
    let five: Vec<u32> = (1..=5).collect();
    assert_eq!(trim_tails(five), vec![2, 3, 4]);
    let four: Vec<u32> = (1..=4).collect();
    assert_eq!(trim_tails(four), vec![1, 2, 3, 4]);
    let fifteen: Vec<u32> = (1..=15).collect();
    assert_eq!(trim_tails(fifteen), (3..=13).collect::<Vec<u32>>());
    let fourteen: Vec<u32> = (1..=14).collect();
    assert_eq!(trim_tails(fourteen).len(), 12);
}

#[test]
fn trim_keeps_a_single_value() {
    assert_eq!(trim_tails(vec![7]), vec![7]);
    assert!(trim_tails(vec![]).is_empty());
}

#[test]
fn filter_and_trim_removes_outliers() {
    let mut c = vec![cand(10.0), cand(900.0)];
    for f in [440.0f32, 445.0, 430.0, 70.0, 435.0, 441.0, 438.0, 590.0, 442.0, 439.0] {
        c.push(cand(f));
    }
    let out = filter_and_trim(&c, bounds(50.0, 600.0)).unwrap();
    assert_eq!(floats(&out), vec![430.0, 435.0, 438.0, 439.0, 440.0, 441.0, 442.0, 445.0]);
}

#[test]
fn empty_candidates_give_no_pitch_candidates() {
    let c: Vec<Candidate> = vec![];
    assert_eq!(filter_and_trim(&c, bounds(50.0, 600.0)), Err(AvasaraError::NoPitchCandidates));
}

#[test]
fn out_of_range_candidates_give_no_pitch_candidates() {
    let c = vec![cand(20.0), cand(50.0), cand(600.0), cand(1200.0)];
    assert_eq!(filter_and_trim(&c, bounds(50.0, 600.0)), Err(AvasaraError::NoPitchCandidates));
}
