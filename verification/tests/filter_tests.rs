use retrying::errors::RetryConfigurationError;
use retrying::filter::RetryFilter;

fn kinds(names: &[&str]) -> Vec<String> {
    names.iter().map(|n| n.to_string()).collect()
}

#[test]
fn allowlist_retries_listed_kind_only() {
    let filter = RetryFilter::AllowList(kinds(&["ParseIntError", "TimeoutError"]));
    assert!(filter.is_retryable("ParseIntError"));
    assert!(filter.is_retryable("TimeoutError"));
    assert!(!filter.is_retryable("IoError"));
}

#[test]
fn denylist_retries_everything_but_listed_kinds() {
    let filter = RetryFilter::DenyList(kinds(&["FatalError"]));
    assert!(!filter.is_retryable("FatalError"));
    assert!(filter.is_retryable("ParseIntError"));
}

#[test]
fn kind_matching_is_case_sensitive_and_exact() {
    let filter = RetryFilter::AllowList(kinds(&["ParseIntError"]));
    assert!(!filter.is_retryable("parseinterror"));
    assert!(!filter.is_retryable("ParseIntErro"));
    assert!(!filter.is_retryable("ParseIntErrors"));
}

#[test]
fn both_lists_are_a_configuration_error() {
    let r = RetryFilter::from_config(Some(kinds(&["A"])), Some(kinds(&["B"])));
    let e: RetryConfigurationError = r.err().expect("both lists must be rejected");
    assert!(!e.msg.is_empty());
}

#[test]
fn single_or_no_list_is_accepted() {
    assert!(matches!(
        RetryFilter::from_config(Some(kinds(&["A"])), None),
        Ok(Some(RetryFilter::AllowList(_)))
    ));
    assert!(matches!(
        RetryFilter::from_config(None, Some(kinds(&["B"]))),
        Ok(Some(RetryFilter::DenyList(_)))
    ));
    assert!(matches!(RetryFilter::from_config(None, None), Ok(None)));
}
