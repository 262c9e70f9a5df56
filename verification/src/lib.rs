//! A retry library: declarative policies describing how often a fallible
//! operation is re-run (stop policies), how long to pause between attempts
//! (wait policies), which failures are worth retrying (retry filters), and
//! best-effort overriding of policy scalars through process environment
//! variables.
//!
//! Durations are measured in whole milliseconds throughout. The process
//! environment is handed in as a snapshot of name/value pairs, and the actual
//! suspension between attempts is left to the caller, so that the decision
//! logic stays independent of any particular clock, scheduler or runtime.

use vstd::prelude::*;

pub mod envs;
pub mod errors;
pub mod execute;
pub mod filter;
pub mod stop;
pub mod tenacity;
pub mod text;
pub mod wait;

verus! {

/// Error reported by the retry machinery itself, for example when an
/// environment override cannot be applied.
#[derive(Debug, Clone, PartialEq)]
pub struct RetryingError {
    pub msg: String,
}

impl RetryingError {
    pub fn new(msg: &str) -> (r: RetryingError)
        ensures
            r.msg@ == msg@,
    {
        RetryingError { msg: msg.to_owned() }
    }
}

/// Relies on std::time::SystemTime::now: the wall clock reading is taken as
/// whole milliseconds since the Unix epoch, clamped to the u64 range and to 0
/// for readings before the epoch. Nothing is assumed about the value.
#[verifier::external_body]
pub(crate) fn now_millis() -> u64 {
    match std::time::SystemTime::now().duration_since(std::time::UNIX_EPOCH) {
        Ok(d) => {
            let m = d.as_millis();
            if m > u64::MAX as u128 {
                u64::MAX
            } else {
                m as u64
            }
        },
        Err(_) => 0,
    }
}

/// Per-invocation retry state: the number of the attempt currently underway
/// (starting at 1) and the timestamp, in milliseconds, at which the whole
/// retry sequence began. Elapsed time is always derived from the current
/// clock reading minus `start_millis`, never stored.
#[derive(Debug, Clone)]
pub struct RetryingContext {
    pub attempt_num: u32,
    pub start_millis: u64,
}

impl RetryingContext {
    pub fn new() -> (r: Self)
        ensures
            r.attempt_num == 1,
    {
        RetryingContext { attempt_num: 1, start_millis: now_millis() }
    }

    /// The timestamp, in milliseconds, captured when this context was created.
    pub fn started_at(&self) -> (r: u64)
        ensures
            r == self.start_millis,
    {
        self.start_millis
    }

    /// Records that one more attempt is about to be made.
    pub fn add_attempt(&mut self)
        requires
            old(self).attempt_num < u32::MAX,
        ensures
            final(self).attempt_num == old(self).attempt_num + 1,
            final(self).start_millis == old(self).start_millis,
    {
        self.attempt_num = self.attempt_num + 1;
    }
}

impl Default for RetryingContext {
    fn default() -> (r: Self)
        ensures
            r.attempt_num == 1,
    {
        RetryingContext::new()
    }
}

} // verus!
