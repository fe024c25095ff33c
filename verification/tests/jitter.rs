use pilfer::gateway::heartbeat_jitter;

#[test]
fn jitter_stays_below_the_interval_over_many_trials() {
    for _ in 0..10_000 {
        let j = heartbeat_jitter(30_000);
        assert!(j < 30_000);
    }
}

#[test]
fn jitter_of_a_one_millisecond_interval_is_zero() {
    for _ in 0..100 {
        assert_eq!(heartbeat_jitter(1), 0);
    }
}

#[test]
fn jitter_covers_small_ranges() {
    // over many draws from [0, 4), every value shows up
    let mut seen = [false; 4];
    for _ in 0..10_000 {
        let j = heartbeat_jitter(4) as usize;
        seen[j] = true;
    }
    assert!(seen.iter().all(|s| *s));
}
