use retrying::envs::get_env_case_insensitive;
use retrying::envs::override_by_env;
use retrying::envs::stop_attempts_with_env;
use retrying::envs::wait_exponential_with_env;
use retrying::envs::wait_random_with_env;
use retrying::envs::RETRYING_STOP_ATTEMPTS;
use retrying::RetryingError;

fn snapshot(pairs: &[(&str, &str)]) -> Vec<(String, String)> {
    pairs
        .iter()
        .map(|(k, v)| (k.to_string(), v.to_string()))
        .collect()
}

#[test]
fn override_unset_keeps_default() {
    let env = snapshot(&[]);
    let (v, diag) = override_by_env::<u32>(5, "APP", RETRYING_STOP_ATTEMPTS, &env);
    assert_eq!(v, 5);
    assert!(diag.is_none());
}

#[test]
fn override_set_returns_parsed_value() {
    let env = snapshot(&[("APP__STOP__ATTEMPTS", "7")]);
    let (v, diag) = override_by_env::<u32>(5, "APP", RETRYING_STOP_ATTEMPTS, &env);
    assert_eq!(v, 7);
    assert!(diag.is_none());
}

#[test]
fn override_matches_any_casing() {
    let env = snapshot(&[("app__Stop__Attempts", "7")]);
    let (v, diag) = override_by_env::<u32>(5, "APP", RETRYING_STOP_ATTEMPTS, &env);
    assert_eq!(v, 7);
    assert!(diag.is_none());
}

#[test]
fn override_ambiguity_keeps_default_with_diagnostic() {
    let env = snapshot(&[
        ("APP__STOP__ATTEMPTS", "7"),
        ("app__stop__attempts", "9"),
    ]);
    let (v, diag) = override_by_env::<u32>(5, "APP", RETRYING_STOP_ATTEMPTS, &env);
    assert_eq!(v, 5);
    assert_eq!(
        diag.map(|d| d.msg),
        Some("More than one environment is available for pattern APP__STOP__ATTEMPTS. Please unset unnecessary variables and leave exactly one.".to_string())
    );
}

#[test]
fn override_unparsable_keeps_default_with_diagnostic() {
    let env = snapshot(&[("APP__STOP__ATTEMPTS", "seven")]);
    let (v, diag) = override_by_env::<u32>(5, "APP", RETRYING_STOP_ATTEMPTS, &env);
    assert_eq!(v, 5);
    assert_eq!(
        diag.map(|d| d.msg),
        Some("Failed to parse OS env variable 'APP__STOP__ATTEMPTS' with value 'seven'.".to_string())
    );
}

#[test]
fn test_override_by_env() {
    let env = snapshot(&[]);
    let (result, _) = override_by_env::<u64>(500, "MY_METHOD", "TEST", &env);
    assert_eq!(result, 500);

    let env = snapshot(&[("MY_METHOD__TEST", "3.5")]);
    let (result, _) = override_by_env::<u64>(500, "MY_METHOD", "TEST", &env);
    assert_eq!(result, 3_500);
}

#[test]
fn test_get_env_case_insensitive() {
    let testing_env = String::from("MY_METHOD__RETRYING__STOP__ATTEMPTS");

    let env = snapshot(&[("MY_METHOD__RETRYING__STOP__ATTEMPTS", "3")]);
    let result = get_env_case_insensitive(&testing_env.to_lowercase(), &env);
    assert_eq!(result.ok(), Some(Some(String::from("3"))));

    let env = snapshot(&[
        ("MY_METHOD__RETRYING__STOP__ATTEMPTS", "3"),
        ("my_method__retrying__stop__attempts", "5"),
    ]);
    let result = get_env_case_insensitive(&testing_env.to_lowercase(), &env);
    assert_eq!(result.err(), Some(RetryingError{msg: String::from("More than one environment is available for pattern my_method__retrying__stop__attempts. Please unset unnecessary variables and leave exactly one.")}));
}

#[test]
fn lookup_empty_name_finds_nothing() {
    let env = snapshot(&[("X", "1")]);
    let result = get_env_case_insensitive(&String::new(), &env);
    assert_eq!(result.ok(), Some(None));
}

#[test]
fn seconds_values_become_milliseconds() {
    let env = snapshot(&[("APP__WAIT__FIXED", "2")]);
    let (v, diag) = override_by_env::<u64>(500, "APP", "WAIT__FIXED", &env);
    assert_eq!(v, 2_000);
    assert!(diag.is_none());

    let env = snapshot(&[("APP__WAIT__FIXED", "1.")]);
    let (v, _) = override_by_env::<u64>(500, "APP", "WAIT__FIXED", &env);
    assert_eq!(v, 1_000);

    let env = snapshot(&[("APP__WAIT__FIXED", "+0.25")]);
    let (v, _) = override_by_env::<u64>(500, "APP", "WAIT__FIXED", &env);
    assert_eq!(v, 250);

    // More than three fraction digits cannot be whole milliseconds.
    let env = snapshot(&[("APP__WAIT__FIXED", "1.2345")]);
    let (v, diag) = override_by_env::<u64>(500, "APP", "WAIT__FIXED", &env);
    assert_eq!(v, 500);
    assert!(diag.is_some());

    // A bare fraction has no digit before the dot.
    let env = snapshot(&[("APP__WAIT__FIXED", ".5")]);
    let (v, diag) = override_by_env::<u64>(500, "APP", "WAIT__FIXED", &env);
    assert_eq!(v, 500);
    assert!(diag.is_some());

    // A value too large for the machine stays out.
    let env = snapshot(&[("APP__WAIT__FIXED", "99999999999999999999")]);
    let (v, diag) = override_by_env::<u64>(500, "APP", "WAIT__FIXED", &env);
    assert_eq!(v, 500);
    assert!(diag.is_some());
}

#[test]
fn absent_prefix_means_no_lookup() {
    // With no prefix the snapshot is never consulted (even a would-be match
    // stays unused) and no diagnostic arises.
    let env = snapshot(&[("APP__STOP__ATTEMPTS", "9")]);
    let (stop, diags) = stop_attempts_with_env(5, None, &env);
    assert_eq!(stop.attempts, 5);
    assert_eq!(diags.len(), 0);
    let (wait, diags) = wait_exponential_with_env(500, 1_000, 10_500, 2, None, &env);
    assert_eq!(wait.multiplier_millis, 500);
    assert_eq!(wait.exp_base, 2);
    assert_eq!(diags.len(), 0);
}

#[test]
fn resolved_attempts_rejects_zero_bound() {
    let env = snapshot(&[("APP__STOP__ATTEMPTS", "0")]);
    let (stop, diags) = stop_attempts_with_env(5, Some("APP"), &env);
    assert_eq!(stop.attempts, 5);
    assert_eq!(diags.len(), 1);
}

#[test]
fn resolved_attempts_takes_override() {
    let env = snapshot(&[("APP__STOP__ATTEMPTS", "9")]);
    let (stop, diags) = stop_attempts_with_env(5, Some("APP"), &env);
    assert_eq!(stop.attempts, 9);
    assert_eq!(diags.len(), 0);
}

#[test]
fn resolved_random_rejects_crossed_bounds() {
    let env = snapshot(&[
        ("APP__WAIT__RANDOM__MIN", "9"),
        ("APP__WAIT__RANDOM__MAX", "2"),
    ]);
    let (wait, diags) = wait_random_with_env(1_000, 2_000, Some("APP"), &env);
    assert_eq!(wait.min_millis, 1_000);
    assert_eq!(wait.max_millis, 2_000);
    assert_eq!(diags.len(), 1);
}

#[test]
fn resolved_exponential_overrides_each_scalar() {
    let env = snapshot(&[
        ("APP__WAIT__EXPONENTIAL__MULTIPLIER", "0.25"),
        ("APP__WAIT__EXPONENTIAL__MIN", "2"),
        ("APP__WAIT__EXPONENTIAL__MAX", "20"),
        ("APP__WAIT__EXPONENTIAL__EXP_BASE", "3"),
    ]);
    let (wait, diags) = wait_exponential_with_env(500, 1_000, 10_500, 2, Some("APP"), &env);
    assert_eq!(wait.multiplier_millis, 250);
    assert_eq!(wait.min_millis, 2_000);
    assert_eq!(wait.max_millis, 20_000);
    assert_eq!(wait.exp_base, 3);
    assert_eq!(diags.len(), 0);
}
