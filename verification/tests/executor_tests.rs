use retrying::execute::Executor;
use retrying::execute::RetryDecision;
use retrying::execute::RetryPolicy;
use retrying::filter::RetryFilter;
use retrying::stop::StopAttempts;
use retrying::stop::StopDuration;
use retrying::stop::StopNever;
use retrying::wait::WaitExponential;
use retrying::wait::WaitFixed;
use retrying::RetryingContext;

/// Runs the executor loop around an operation, as a scheduling driver
/// would, except that a pause of zero needs no sleeping at all.
fn run<T, E>(
    mut executor: Executor<StopAttempts, WaitFixed>,
    mut op: impl FnMut() -> Result<T, E>,
    kind_of: impl Fn(&E) -> String,
) -> Result<T, E> {
    loop {
        match op() {
            Ok(value) => return Ok(value),
            Err(err) => match executor.on_error(&kind_of(&err)) {
                RetryDecision::Propagate => return Err(err),
                RetryDecision::RetryAfter(millis) => assert_eq!(millis, 0),
            },
        }
    }
}

#[test]
fn succeeds_on_third_attempt_within_bound() {
    // The operation fails twice, then succeeds; five attempts are allowed.
    let mut invocations = 0;
    let executor = Executor::new(RetryPolicy {
        stop: Some(StopAttempts::new(5)),
        wait: Some(WaitFixed::new(0)),
        retry: None,
        env_prefix: None,
    });
    let result: Result<&str, String> = run(
        executor,
        || {
            invocations += 1;
            if invocations <= 2 {
                Err(format!("failure {}", invocations))
            } else {
                Ok("done")
            }
        },
        |_| "StringError".to_string(),
    );
    assert_eq!(result, Ok("done"));
    assert_eq!(invocations, 3);
}

#[test]
fn exhausts_attempts_and_returns_last_error() {
    // The operation always fails; exactly three invocations occur and the
    // error of the third one comes back.
    let mut invocations = 0;
    let executor = Executor::new(RetryPolicy {
        stop: Some(StopAttempts::new(3)),
        wait: Some(WaitFixed::new(0)),
        retry: None,
        env_prefix: None,
    });
    let result: Result<&str, String> = run(
        executor,
        || {
            invocations += 1;
            Err(format!("failure {}", invocations))
        },
        |_| "StringError".to_string(),
    );
    assert_eq!(result, Err("failure 3".to_string()));
    assert_eq!(invocations, 3);
}

#[test]
fn allowlisted_kind_continues_other_kind_stops_at_once() {
    let mut executor = Executor::new(RetryPolicy {
        stop: Some(StopAttempts::new(5)),
        wait: Some(WaitFixed::new(0)),
        retry: Some(RetryFilter::AllowList(vec!["Transient".to_string()])),
        env_prefix: None,
    });

    // A listed kind is retried: one attempt is counted.
    assert_eq!(executor.on_error("Transient"), RetryDecision::RetryAfter(0));
    assert_eq!(executor.ctx.attempt_num, 2);

    // Any other kind is terminal at once: no pause, no attempt counted.
    assert_eq!(executor.on_error("Fatal"), RetryDecision::Propagate);
    assert_eq!(executor.ctx.attempt_num, 2);

    // The listed kind is still subject to the stop policy.
    assert_eq!(executor.on_error("Transient"), RetryDecision::RetryAfter(0));
    assert_eq!(executor.on_error("Transient"), RetryDecision::RetryAfter(0));
    assert_eq!(executor.on_error("Transient"), RetryDecision::RetryAfter(0));
    assert_eq!(executor.ctx.attempt_num, 5);
    assert_eq!(executor.on_error("Transient"), RetryDecision::Propagate);
}

#[test]
fn absent_policy_retries_forever_with_zero_delay() {
    let mut executor = Executor::<StopNever, WaitFixed>::new(RetryPolicy {
        stop: None,
        wait: None,
        retry: None,
        env_prefix: None,
    });
    for _ in 0..1000 {
        assert_eq!(executor.on_error("AnyKind"), RetryDecision::RetryAfter(0));
    }
    assert_eq!(executor.ctx.attempt_num, 1001);
}

#[test]
fn elapsed_duration_propagates_without_counting() {
    // A sequence that started at the epoch has exhausted any duration bound.
    let mut executor = Executor::<StopDuration, WaitFixed> {
        policy: RetryPolicy {
            stop: Some(StopDuration::new(100)),
            wait: Some(WaitFixed::new(0)),
            retry: None,
            env_prefix: None,
        },
        ctx: RetryingContext {
            attempt_num: 1,
            start_millis: 0,
        },
    };
    assert_eq!(executor.on_error("E"), RetryDecision::Propagate);
    assert_eq!(executor.ctx.attempt_num, 1);
}

#[test]
fn unelapsed_duration_keeps_retrying() {
    let mut executor = Executor::new(RetryPolicy {
        stop: Some(StopDuration::new(3_600_000)),
        wait: Some(WaitFixed::new(0)),
        retry: None,
        env_prefix: None,
    });
    assert_eq!(executor.on_error("E"), RetryDecision::RetryAfter(0));
    assert_eq!(executor.ctx.attempt_num, 2);
}

#[test]
fn wait_is_computed_before_the_attempt_is_counted() {
    // With exponential backoff the pause for the first failure uses the
    // pre-increment attempt number one.
    let mut executor = Executor::new(RetryPolicy {
        stop: Some(StopAttempts::new(10)),
        wait: Some(WaitExponential::new(500, 1_000, 10_500, 2)),
        retry: None,
        env_prefix: None,
    });
    assert_eq!(executor.on_error("E"), RetryDecision::RetryAfter(1_500));
    assert_eq!(executor.on_error("E"), RetryDecision::RetryAfter(2_000));
    assert_eq!(executor.on_error("E"), RetryDecision::RetryAfter(3_000));
}
