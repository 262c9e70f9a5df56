//! Retry filters: rules classifying a failure as retryable or terminal, by
//! its error kind identifier alone, never by its payload.

use vstd::prelude::*;

use crate::errors::RetryConfigurationError;
use crate::text::str_eq;

verus! {

/// Whether some entry of `kinds` spells exactly `kind`.
pub open spec fn kind_in(kinds: Seq<String>, kind: Seq<char>) -> bool {
    exists|i: int| 0 <= i < kinds.len() && kinds[i]@ == kind
}

/// A rule classifying failures by their error kind: either only the listed
/// kinds are retryable, or all but the listed kinds are. An absent filter
/// (no `RetryFilter` at all) retries everything.
#[derive(Debug, Clone)]
pub enum RetryFilter {
    AllowList(Vec<String>),
    DenyList(Vec<String>),
}

fn contains_kind(kinds: &Vec<String>, kind: &str) -> (r: bool)
    ensures
        r == kind_in(kinds@, kind@),
{
    let mut i: usize = 0;
    while i < kinds.len()
        invariant
            i <= kinds@.len(),
            forall|j: int| 0 <= j < i ==> kinds@[j]@ != kind@,
        decreases kinds@.len() - i,
    {
        if str_eq(kinds[i].as_str(), kind) {
            return true;
        }
        i = i + 1;
    }
    false
}

impl RetryFilter {
    /// Whether a failure of the given kind may be retried under this filter.
    pub open spec fn retryable_spec(&self, kind: Seq<char>) -> bool {
        match self {
            RetryFilter::AllowList(kinds) => kind_in(kinds@, kind),
            RetryFilter::DenyList(kinds) => !kind_in(kinds@, kind),
        }
    }

    /// Classifies a failure of the given kind as retryable or terminal.
    pub fn is_retryable(&self, error_kind: &str) -> (r: bool)
        ensures
            r == self.retryable_spec(error_kind@),
    {
        match self {
            RetryFilter::AllowList(kinds) => contains_kind(kinds, error_kind),
            RetryFilter::DenyList(kinds) => !contains_kind(kinds, error_kind),
        }
    }

    /// Builds the filter from the two mutually exclusive kind lists of a
    /// configuration. Giving both lists at once is a configuration error;
    /// giving neither means every failure is retryable.
    pub fn from_config(if_errors: Option<Vec<String>>, if_not_errors: Option<Vec<String>>) -> (r:
        Result<Option<RetryFilter>, RetryConfigurationError>)
        ensures
            ({
                match (if_errors, if_not_errors) {
                    (Some(allow), Some(deny)) => r is Err,
                    (Some(allow), None) => r == Ok::<Option<RetryFilter>, RetryConfigurationError>(
                        Some(RetryFilter::AllowList(allow)),
                    ),
                    (None, Some(deny)) => r == Ok::<Option<RetryFilter>, RetryConfigurationError>(
                        Some(RetryFilter::DenyList(deny)),
                    ),
                    (None, None) => r == Ok::<Option<RetryFilter>, RetryConfigurationError>(None),
                }
            }),
    {
        match (if_errors, if_not_errors) {
            (Some(allow), Some(deny)) => Err(
                RetryConfigurationError::from_str(
                    "a retry filter cannot both allow and deny lists of error kinds",
                ),
            ),
            (Some(allow), None) => Ok(Some(RetryFilter::AllowList(allow))),
            (None, Some(deny)) => Ok(Some(RetryFilter::DenyList(deny))),
            (None, None) => Ok(None),
        }
    }
}

} // verus!
