use r6stats_client::http::{Admission, Decision, Policy, Ratelimit, RatelimitBuilder};

#[test]
fn test_default_ratelimit() {
    let r = Ratelimit::default();

    assert_eq!(r.limit(), 60);
    assert_eq!(r.remaining(), 60);
    assert_eq!(r.interval(), 60_000);
    assert!(r.reset_in(0).is_none());
}

#[test]
fn test_ratelimiting() {
    // Limit of 3 requests in 3 seconds
    let mut r = RatelimitBuilder::new().limit(3).interval(3_000).build();

    // The first admission starts the window
    assert_eq!(r.try_admit(0), Admission::Admitted);
    assert_eq!(r.remaining(), 2);

    // Save reset_at to assert that following requests pass
    let reset_at = r.reset_at();
    assert_eq!(reset_at, Some(3_000));

    assert_eq!(r.try_admit(1), Admission::Admitted);
    assert_eq!(r.try_admit(2), Admission::Admitted);
    assert_eq!(r.remaining(), 0);

    // Check if wrong ratelimited
    assert_eq!(reset_at, r.reset_at());

    // The next request gets ratelimited, carrying the exact wait
    assert_eq!(r.try_admit(10), Admission::Exhausted { wait: 2_990 });
    assert_eq!(r.remaining(), 0);

    // After the reported wait the window rolls over and admits
    assert_eq!(r.try_admit(3_000), Admission::Admitted);
    assert_eq!(r.remaining(), r.limit() - 1);
    assert!(r.reset_in(3_001).is_some());
}

#[test]
fn test_disabled_ratelimiting() {
    let mut r = RatelimitBuilder::new().limit(0).build();

    let reset_at = r.reset_at();

    for i in 0..100u64 {
        assert_eq!(r.try_admit(i), Admission::Admitted);
    }

    assert_eq!(reset_at, r.reset_at());
}

#[test]
fn test_blocking_window_scenario() {
    // limit = 3, interval = 3 s, blocking policy (the default)
    let mut r = RatelimitBuilder::new().limit(3).interval(3_000).build();

    for _ in 0..3 {
        assert_eq!(r.pre_admit(0), Decision::Proceed);
    }
    assert_eq!(r.remaining(), 0);

    // The 4th admission completes only after the full window has elapsed
    let wait = match r.pre_admit(0) {
        Decision::Wait(wait) => wait,
        other => panic!("expected a wait, got {:?}", other),
    };
    assert_eq!(wait, 3_000);

    // The caller delays exactly `wait` and is then admitted
    assert_eq!(r.pre_admit(wait), Decision::Proceed);
    assert_eq!(r.remaining(), r.limit() - 1);
}

#[test]
fn test_disabled_governor_scenario() {
    let mut r = RatelimitBuilder::new().limit(0).build();

    for i in 0..100u64 {
        // No delay is ever observed
        assert_eq!(r.pre_admit(i), Decision::Proceed);
    }
    assert_eq!(r.reset_at(), None);
}

#[test]
fn test_default_construction_scenario() {
    let r = Ratelimit::default();

    assert_eq!(r.limit(), 60);
    assert_eq!(r.interval(), 60_000);
    assert_eq!(r.remaining(), 60);
    // No reset time is set until the first admission
    assert_eq!(r.reset_at(), None);
}

#[test]
fn test_fail_fast_scenario() {
    // limit = 1, interval = 60 s, fail-fast policy
    let mut r = RatelimitBuilder::new().limit(1).interval(60_000).policy(Policy::FailFast).build();

    assert_eq!(r.pre_admit(5), Decision::Proceed);

    // A second admission within the same instant is rejected
    match r.pre_admit(5) {
        Decision::Reject(wait) => {
            assert!(wait > 0);
            assert!(wait <= 60_000);
        }
        other => panic!("expected a rejection, got {:?}", other),
    }

    // The rejection surfaces as the rate-limited error
    let d = r.pre_admit(5);
    match d.into_result() {
        Err(r6stats_client::Error::RateLimited(wait)) => assert_eq!(wait, 60_000),
        other => panic!("expected the rate-limited error, got {:?}", other),
    }
}

#[test]
fn test_within_window_counts() {
    // N <= limit admissions strictly before the reset: all admitted,
    // remaining = limit - N afterwards
    let mut r = RatelimitBuilder::new().limit(5).interval(10_000).build();
    assert_eq!(r.try_admit(100), Admission::Admitted);
    let reset_at = r.reset_at().unwrap();
    for t in [200u64, 3_000, 9_000] {
        assert!(t < reset_at);
        assert_eq!(r.try_admit(t), Admission::Admitted);
    }
    assert_eq!(r.remaining(), 5 - 4);
    assert_eq!(r.reset_at(), Some(reset_at));
}

#[test]
fn test_rollover_ignores_history() {
    // A window that expired ten intervals ago resets exactly as one that
    // expired a moment ago: the fresh window depends on `now` alone.
    let mut long_expired = RatelimitBuilder::new().limit(4).interval(1_000).build();
    let mut just_expired = RatelimitBuilder::new().limit(4).interval(1_000).build();
    assert_eq!(long_expired.try_admit(0), Admission::Admitted);
    assert_eq!(just_expired.try_admit(9_500), Admission::Admitted);

    let now = 10_500u64;
    assert_eq!(long_expired.try_admit(now), Admission::Admitted);
    assert_eq!(just_expired.try_admit(now), Admission::Admitted);
    assert_eq!(long_expired.reset_at(), Some(11_500));
    assert_eq!(just_expired.reset_at(), Some(11_500));
    assert_eq!(long_expired.remaining(), 3);
    assert_eq!(just_expired.remaining(), 3);
}

#[test]
fn test_exhausted_changes_nothing() {
    // An attempt that is made to wait records no admission: the state is
    // exactly as if the caller had never attempted (so abandoning the wait
    // has no side effect).
    let mut r = RatelimitBuilder::new().limit(1).interval(5_000).build();
    assert_eq!(r.try_admit(0), Admission::Admitted);
    let before_remaining = r.remaining();
    let before_reset = r.reset_at();
    assert_eq!(r.try_admit(1), Admission::Exhausted { wait: 4_999 });
    assert_eq!(r.remaining(), before_remaining);
    assert_eq!(r.reset_at(), before_reset);
}

#[test]
fn test_builder_settings() {
    let r = RatelimitBuilder::new().limit(7).interval(123).policy(Policy::FailFast).build();
    assert_eq!(r.limit(), 7);
    assert_eq!(r.remaining(), 7);
    assert_eq!(r.interval(), 123);
    assert_eq!(r.reset_at(), None);

    let d = RatelimitBuilder::new().build();
    assert_eq!(d.limit(), 60);
    assert_eq!(d.interval(), 60_000);
}

#[test]
fn test_reset_in_reports_remaining_wait() {
    let mut r = RatelimitBuilder::new().limit(2).interval(2_000).build();
    assert!(r.reset_in(0).is_none());
    r.try_admit(1_000);
    assert_eq!(r.reset_in(1_400), Some(1_600));
    assert_eq!(r.reset_in(3_000), None);
    assert_eq!(r.reset_in(5_000), None);
}
