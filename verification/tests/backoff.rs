use pilfer::gateway::Supervisor;

#[test]
fn fresh_supervisor_has_no_delay() {
    let sup = Supervisor::new();
    assert_eq!(sup.delay_secs(), 0);
}

#[test]
fn backoff_grows_from_a_standing_start() {
    // the delays slept before successive attempts: 0, 2, 4, 8, 16, 32, 64, 64, ...
    let mut sup = Supervisor::new();
    let mut delays = vec![sup.delay_secs()];
    for _ in 0..7 {
        sup.on_connect_failure();
        delays.push(sup.delay_secs());
    }
    assert_eq!(delays, vec![0, 2, 4, 8, 16, 32, 64, 64]);
}

#[test]
fn backoff_doubles_and_caps_at_64() {
    let mut sup = Supervisor { backoff_secs: 2 };
    let mut expected = vec![];
    let mut observed = vec![];
    let mut prev: u64 = 2;
    for _ in 0..8 {
        sup.on_connect_failure();
        observed.push(sup.delay_secs());
        prev = std::cmp::min(64, 2 * prev);
        expected.push(prev);
    }
    assert_eq!(observed, vec![4, 8, 16, 32, 64, 64, 64, 64]);
    assert_eq!(observed, expected);
}

#[test]
fn open_success_resets_backoff_regardless_of_failures() {
    let mut sup = Supervisor::new();
    sup.on_connect_failure();
    let mut sup2 = Supervisor { backoff_secs: 64 };
    sup.on_open_success();
    sup2.on_open_success();
    assert_eq!(sup.delay_secs(), 0);
    assert_eq!(sup2.delay_secs(), 0);
}

#[test]
fn session_end_grows_backoff_only_with_a_reason() {
    let mut sup = Supervisor { backoff_secs: 4 };
    sup.on_session_end(false);
    assert_eq!(sup.delay_secs(), 4);
    sup.on_session_end(true);
    assert_eq!(sup.delay_secs(), 8);
    let mut fresh = Supervisor::new();
    fresh.on_session_end(true);
    assert_eq!(fresh.delay_secs(), 2);
}
