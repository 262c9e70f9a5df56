//! Stop policies: rules deciding when to give up retrying.
//!
//! Each policy is a pure predicate over the attempt counter and the elapsed
//! wall-clock time in milliseconds, captured by the `stop_spec` function of
//! the [`Stop`] trait. `stop_execution` samples the clock itself, so for
//! time-sensitive policies its result is pinned only relative to some clock
//! reading; policies that ignore the clock are exact.

use vstd::prelude::*;

use crate::RetryingContext;
use crate::now_millis;

verus! {

/// A rule deciding whether to give up, given the per-invocation context.
pub trait Stop {
    /// What the policy decides for a given attempt number and elapsed time
    /// (milliseconds since the context was created).
    spec fn stop_spec(&self, attempt_num: nat, elapsed_millis: nat) -> bool;

    /// Whether the decision depends on elapsed time at all.
    spec fn time_sensitive(&self) -> bool;

    /// Decides whether to give up. For a time-sensitive policy the elapsed
    /// time is whatever the clock showed during the call.
    fn stop_execution(&self, ctx: &RetryingContext) -> (r: bool)
        ensures
            exists|elapsed: nat| r == self.stop_spec(ctx.attempt_num as nat, elapsed),
            !self.time_sensitive() ==> r == self.stop_spec(ctx.attempt_num as nat, 0),
    ;
}

/// Never gives up: retrying is unbounded.
pub struct StopNever {}

impl Stop for StopNever {
    open spec fn stop_spec(&self, attempt_num: nat, elapsed_millis: nat) -> bool {
        false
    }

    open spec fn time_sensitive(&self) -> bool {
        false
    }

    fn stop_execution(&self, ctx: &RetryingContext) -> (r: bool) {
        proof {
            assert(false == self.stop_spec(ctx.attempt_num as nat, 0));
        }
        false
    }
}

/// Gives up once the attempt counter reaches a fixed bound.
pub struct StopAttempts {
    pub attempts: u32,
}

impl StopAttempts {
    pub fn new(attempts: u32) -> (r: StopAttempts)
        requires
            attempts >= 1,
        ensures
            r.attempts == attempts,
    {
        StopAttempts { attempts }
    }
}

impl Stop for StopAttempts {
    open spec fn stop_spec(&self, attempt_num: nat, elapsed_millis: nat) -> bool {
        attempt_num >= self.attempts
    }

    open spec fn time_sensitive(&self) -> bool {
        false
    }

    fn stop_execution(&self, ctx: &RetryingContext) -> (r: bool) {
        let r = ctx.attempt_num >= self.attempts;
        proof {
            assert(r == self.stop_spec(ctx.attempt_num as nat, 0));
        }
        r
    }
}

/// Gives up once the elapsed wall-clock time reaches a fixed bound
/// (milliseconds). The bound covers the whole retry sequence, evaluated
/// between attempts; it never bounds a single in-flight attempt.
pub struct StopDuration {
    pub duration_millis: u64,
}

impl StopDuration {
    pub fn new(duration_millis: u64) -> (r: StopDuration)
        requires
            duration_millis >= 1,
        ensures
            r.duration_millis == duration_millis,
    {
        StopDuration { duration_millis }
    }

    /// The policy's decision for a given elapsed time: give up exactly when
    /// the bound has been reached.
    pub fn stop_at(&self, elapsed_millis: u64) -> (r: bool)
        ensures
            r == (elapsed_millis >= self.duration_millis),
    {
        elapsed_millis >= self.duration_millis
    }
}

impl Stop for StopDuration {
    open spec fn stop_spec(&self, attempt_num: nat, elapsed_millis: nat) -> bool {
        elapsed_millis >= self.duration_millis
    }

    open spec fn time_sensitive(&self) -> bool {
        true
    }

    fn stop_execution(&self, ctx: &RetryingContext) -> (r: bool) {
        let now = now_millis();
        let elapsed = now.saturating_sub(ctx.start_millis);
        let r = self.stop_at(elapsed);
        proof {
            assert(r == self.stop_spec(ctx.attempt_num as nat, elapsed as nat));
        }
        r
    }
}

/// Gives up as soon as either the attempt bound or the duration bound is
/// reached, whichever comes first.
pub struct StopAttemptsOrDuration {
    pub attempts: StopAttempts,
    pub duration: StopDuration,
}

impl StopAttemptsOrDuration {
    pub fn new(attempts: u32, duration_millis: u64) -> (r: StopAttemptsOrDuration)
        requires
            attempts >= 1,
            duration_millis >= 1,
        ensures
            r.attempts.attempts == attempts,
            r.duration.duration_millis == duration_millis,
    {
        StopAttemptsOrDuration {
            attempts: StopAttempts { attempts },
            duration: StopDuration { duration_millis },
        }
    }

    /// The policy's decision for a given attempt number and elapsed time:
    /// give up exactly when either bound has been reached.
    pub fn stop_at(&self, attempt_num: u32, elapsed_millis: u64) -> (r: bool)
        ensures
            r == self.stop_spec(attempt_num as nat, elapsed_millis as nat),
    {
        attempt_num >= self.attempts.attempts || self.duration.stop_at(elapsed_millis)
    }
}

impl Stop for StopAttemptsOrDuration {
    open spec fn stop_spec(&self, attempt_num: nat, elapsed_millis: nat) -> bool {
        self.attempts.stop_spec(attempt_num, elapsed_millis) || self.duration.stop_spec(
            attempt_num,
            elapsed_millis,
        )
    }

    open spec fn time_sensitive(&self) -> bool {
        true
    }

    fn stop_execution(&self, ctx: &RetryingContext) -> (r: bool) {
        if self.attempts.stop_execution(ctx) {
            proof {
                assert(true == self.stop_spec(ctx.attempt_num as nat, 0));
            }
            true
        } else {
            let r = self.duration.stop_execution(ctx);
            proof {
                let e = choose|e: nat| r == self.duration.stop_spec(ctx.attempt_num as nat, e);
                assert(r == self.stop_spec(ctx.attempt_num as nat, e));
            }
            r
        }
    }
}

/// An attempt-bounded policy stops exactly at its threshold: it lets the
/// attempts numbered below the bound continue and stops every attempt from
/// the bound on, whatever the elapsed time.
pub proof fn lemma_attempts_threshold(s: StopAttempts, attempt_num: nat, elapsed_millis: nat)
    ensures
        attempt_num < s.attempts ==> !s.stop_spec(attempt_num, elapsed_millis),
        attempt_num >= s.attempts ==> s.stop_spec(attempt_num, elapsed_millis),
{
}

/// The combined attempts-or-duration policy decides exactly as the
/// disjunction of the two single policies, for every attempt number and every
/// elapsed time.
pub proof fn lemma_attempts_or_duration_is_or(
    c: StopAttemptsOrDuration,
    attempt_num: nat,
    elapsed_millis: nat,
)
    ensures
        c.stop_spec(attempt_num, elapsed_millis) == (c.attempts.stop_spec(
            attempt_num,
            elapsed_millis,
        ) || c.duration.stop_spec(attempt_num, elapsed_millis)),
{
}

} // verus!
