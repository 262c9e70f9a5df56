use retrying::stop::Stop;
use retrying::stop::StopAttempts;
use retrying::stop::StopAttemptsOrDuration;
use retrying::stop::StopDuration;
use retrying::stop::StopNever;
use retrying::RetryingContext;

#[test]
fn test_attemps_stop_execution() {
    let stop = StopAttempts::new(2u32);
    let mut ctx = RetryingContext::default();

    assert!(!stop.stop_execution(&ctx));

    ctx.add_attempt();
    assert!(stop.stop_execution(&ctx));
}

#[test]
fn test_duration_stop_execution() {
    // A context that started at the epoch has long exceeded a tenth of a
    // second of elapsed time.
    let ctx = RetryingContext {
        attempt_num: 1,
        start_millis: 0,
    };
    let stop = StopDuration::new(100);

    assert!(stop.stop_execution(&ctx));
}

#[test]
fn duration_not_elapsed_does_not_stop() {
    let ctx = RetryingContext::new();
    // An hour has not passed since the context was created.
    let stop = StopDuration::new(3_600_000);
    assert!(!stop.stop_execution(&ctx));
}

#[test]
fn duration_decision_for_given_elapsed() {
    // The threshold is inclusive: the bound itself already stops.
    let stop = StopDuration::new(100);
    assert!(!stop.stop_at(99));
    assert!(stop.stop_at(100));
    assert!(stop.stop_at(101));
}

#[test]
fn combined_decision_for_given_state() {
    let stop = StopAttemptsOrDuration::new(3, 100);
    assert!(!stop.stop_at(1, 0));
    assert!(!stop.stop_at(2, 99));
    assert!(stop.stop_at(3, 0));
    assert!(stop.stop_at(1, 100));
}

#[test]
fn never_does_not_stop() {
    let mut ctx = RetryingContext::new();
    let stop = StopNever {};
    assert!(!stop.stop_execution(&ctx));
    for _ in 0..100 {
        ctx.add_attempt();
    }
    assert!(!stop.stop_execution(&ctx));
}

#[test]
fn attempts_threshold_exact() {
    // The bound is reached exactly at the configured attempt number.
    let stop = StopAttempts::new(4);
    let mut ctx = RetryingContext::new();
    for expected in [false, false, false, true, true] {
        assert_eq!(stop.stop_execution(&ctx), expected);
        ctx.add_attempt();
    }
}

#[test]
fn attempts_or_duration_stops_on_attempts() {
    // The duration bound is far away; the attempts bound decides.
    let stop = StopAttemptsOrDuration::new(1, 3_600_000);
    let ctx = RetryingContext::new();
    assert!(stop.stop_execution(&ctx));
}

#[test]
fn attempts_or_duration_stops_on_duration() {
    // The attempts bound is far away; the duration bound decides.
    let stop = StopAttemptsOrDuration::new(1_000_000, 100);
    let ctx = RetryingContext {
        attempt_num: 1,
        start_millis: 0,
    };
    assert!(stop.stop_execution(&ctx));
}

#[test]
fn attempts_or_duration_continues_when_neither_fires() {
    let stop = StopAttemptsOrDuration::new(5, 3_600_000);
    let ctx = RetryingContext::new();
    assert!(!stop.stop_execution(&ctx));
}
