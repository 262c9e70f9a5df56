use retrying::wait::Wait;
use retrying::wait::WaitExponential;
use retrying::wait::WaitFixed;
use retrying::wait::WaitRandom;
use retrying::RetryingContext;

#[test]
fn test_fixed_wait_seconds() {
    let ctx = RetryingContext::default();

    let wait = WaitFixed::new(10_000);

    assert_eq!(wait.wait_millis(&ctx), 10_000)
}

#[test]
fn test_random_wait_seconds() {
    let ctx = RetryingContext::default();

    let wait = WaitRandom::new(1_000, 10_500);

    assert!((1_000..=10_500).contains(&wait.wait_millis(&ctx)))
}

#[test]
fn test_exponential_wait_seconds() {
    let mut ctx = RetryingContext::default();

    let wait = WaitExponential::new(500, 1_000, 10_500, 2);

    assert_eq!(wait.wait_millis(&ctx), 1_500);

    ctx.add_attempt();
    assert_eq!(wait.wait_millis(&ctx), 2_000);

    ctx.add_attempt();
    assert_eq!(wait.wait_millis(&ctx), 3_000);

    ctx.add_attempt();
    assert_eq!(wait.wait_millis(&ctx), 5_000);

    ctx.add_attempt();
    assert_eq!(wait.wait_millis(&ctx), 9_000);

    ctx.add_attempt();
    assert_eq!(wait.wait_millis(&ctx), 10_500);

    ctx.add_attempt();
    assert_eq!(wait.wait_millis(&ctx), 10_500);
}

#[test]
fn random_stays_in_bounds_over_many_samples() {
    let ctx = RetryingContext::default();
    let wait = WaitRandom::new(1_000, 10_500);
    for _ in 0..1000 {
        let w = wait.wait_millis(&ctx);
        assert!((1_000..=10_500).contains(&w));
    }
}

#[test]
fn random_degenerate_interval_is_constant() {
    let ctx = RetryingContext::default();
    let wait = WaitRandom::new(250, 250);
    for _ in 0..10 {
        assert_eq!(wait.wait_millis(&ctx), 250);
    }
}

#[test]
fn exponential_with_base_one_is_constant() {
    let mut ctx = RetryingContext::default();
    let wait = WaitExponential::new(500, 1_000, 10_500, 1);
    for _ in 0..5 {
        assert_eq!(wait.wait_millis(&ctx), 1_500);
        ctx.add_attempt();
    }
}

#[test]
fn exponential_clamps_after_overflow() {
    // 2 to the 200th power overflows every machine integer; the delay is
    // still the configured maximum.
    let mut ctx = RetryingContext::default();
    for _ in 0..200 {
        ctx.add_attempt();
    }
    let wait = WaitExponential::new(500, 1_000, 10_500, 2);
    assert_eq!(wait.wait_millis(&ctx), 10_500);
}

#[test]
fn exponential_zero_multiplier_keeps_minimum() {
    let ctx = RetryingContext::default();
    let wait = WaitExponential::new(0, 700, 10_500, 2);
    assert_eq!(wait.wait_millis(&ctx), 700);
}
