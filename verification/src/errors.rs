//! Configuration errors: an invalid policy shape is rejected when the policy
//! is built, before any invocation of the wrapped operation.

use vstd::prelude::*;

verus! {

/// Error describing an invalid retry configuration.
#[derive(Debug, Clone)]
pub struct RetryConfigurationError {
    pub msg: String,
}

impl RetryConfigurationError {
    pub fn from_str(msg: &str) -> (r: RetryConfigurationError)
        ensures
            r.msg@ == msg@,
    {
        RetryConfigurationError { msg: msg.to_owned() }
    }

    pub fn new(msg: String) -> (r: RetryConfigurationError)
        ensures
            r.msg@ == msg@,
    {
        RetryConfigurationError { msg }
    }
}

} // verus!
