use avasara::{collect_candidates, windows, Candidate, Window, ANALYSIS_CHUNK, ENCODE_BLOCK};

#[test]
fn windows_cover_the_buffer_with_a_short_tail() {
    let w = windows(2500, ANALYSIS_CHUNK);
    assert_eq!(
        w,
        vec![
            Window { start: 0, end: 1024 },
            Window { start: 1024, end: 2048 },
            Window { start: 2048, end: 2500 },
        ]
    );
}

#[test]
fn windows_of_an_exact_multiple() {
    let w = windows(1024, ENCODE_BLOCK);
    assert_eq!(w, vec![Window { start: 0, end: 512 }, Window { start: 512, end: 1024 }]);
}

#[test]
fn no_windows_for_an_empty_buffer() {
    assert!(windows(0, ANALYSIS_CHUNK).is_empty());
}

#[test]
fn window_count_is_rounded_up() {
    assert_eq!(windows(44100, ANALYSIS_CHUNK).len(), 44);
    assert_eq!(windows(1, ANALYSIS_CHUNK).len(), 1);
    assert_eq!(windows(1025, ANALYSIS_CHUNK).len(), 2);
}

#[test]
fn windows_without_estimate_are_dropped_in_order() {
    let a = Candidate { frequency: 440.0f32.to_bits(), clarity: 0.9f32.to_bits() };
    let b = Candidate { frequency: 220.0f32.to_bits(), clarity: 0.5f32.to_bits() };
    let estimates = vec![None, Some(a), None, Some(b), None];
    let found = collect_candidates(&estimates);
    assert_eq!(found, vec![a, b]);
    assert!(found.len() <= windows(5 * 1024, ANALYSIS_CHUNK).len());
}

#[test]
fn no_estimates_give_no_candidates() {
    let estimates: Vec<Option<Candidate>> = vec![None, None, None];
    assert!(collect_candidates(&estimates).is_empty());
}
