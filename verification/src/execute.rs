//! The executor's decision core.
//!
//! One invocation owns an [`Executor`]: fresh context, immutable policy.
//! The caller runs the operation; after a failure it asks [`Executor::on_error`]
//! what to do. The answer is either to propagate the failure verbatim —
//! because the stop policy fired or the filter found the kind terminal, in
//! which case nothing waits and no attempt is counted — or to pause for a
//! computed delay and invoke again, counting one more attempt. How the pause
//! is implemented (blocking the thread or suspending a task) is the caller's
//! business and never changes the decisions.

use vstd::prelude::*;

use crate::RetryingContext;
use crate::filter::RetryFilter;
use crate::filter::kind_in;
use crate::stop::Stop;
use crate::wait::Wait;

verus! {

/// A retry policy: when to give up, how long to pause, which failures are
/// retryable, and the prefix under which environment overrides for the
/// policy's scalars are looked up. An absent part means: never give up, no
/// pause, every failure retryable.
pub struct RetryPolicy<S: Stop, W: Wait> {
    pub stop: Option<S>,
    pub wait: Option<W>,
    pub retry: Option<RetryFilter>,
    pub env_prefix: Option<String>,
}

/// What the executor does after a failed attempt.
#[derive(Debug, Clone, Copy, PartialEq, Eq, Structural)]
pub enum RetryDecision {
    /// Give up: the failure is returned to the caller verbatim.
    Propagate,
    /// Pause for the given number of milliseconds, then invoke again.
    RetryAfter(u64),
}

/// What an optional stop policy decides; absent, it never stops.
pub open spec fn stop_of<S: Stop>(stop: Option<S>, attempt_num: nat, elapsed_millis: nat) -> bool {
    match stop {
        Some(s) => s.stop_spec(attempt_num, elapsed_millis),
        None => false,
    }
}

/// Whether an optional stop policy ignores elapsed time.
pub open spec fn time_free_of<S: Stop>(stop: Option<S>) -> bool {
    match stop {
        Some(s) => !s.time_sensitive(),
        None => true,
    }
}

/// Whether an optional filter lets a failure of the given kind be retried;
/// absent, every failure is retryable.
pub open spec fn retryable_of(retry: Option<RetryFilter>, kind: Seq<char>) -> bool {
    match retry {
        Some(f) => f.retryable_spec(kind),
        None => true,
    }
}

/// Which pauses an optional wait policy admits; absent, the pause is zero.
pub open spec fn wait_ok_of<W: Wait>(wait: Option<W>, attempt_num: nat, millis: nat) -> bool {
    match wait {
        Some(w) => w.wait_ok(attempt_num, millis),
        None => millis == 0,
    }
}

/// Well-formedness of an optional wait policy.
pub open spec fn wait_wf_of<W: Wait>(wait: Option<W>) -> bool {
    match wait {
        Some(w) => w.wf(),
        None => true,
    }
}

/// The state of one retrying invocation: the policy and the per-invocation
/// context.
pub struct Executor<S: Stop, W: Wait> {
    pub policy: RetryPolicy<S, W>,
    pub ctx: RetryingContext,
}

impl<S: Stop, W: Wait> Executor<S, W> {
    pub open spec fn wf(&self) -> bool {
        wait_wf_of(self.policy.wait) && self.ctx.attempt_num >= 1
    }

    /// What a correct decision after a failure looks like, for a given
    /// elapsed time: if the stop policy fires or the kind is terminal, the
    /// failure is propagated and the context is untouched — no pause, no
    /// attempt counted; otherwise the pause is one the wait policy admits
    /// for the pre-increment attempt number, and exactly one attempt is
    /// counted.
    pub open spec fn decision_ok(
        pre: Executor<S, W>,
        post: Executor<S, W>,
        kind: Seq<char>,
        elapsed_millis: nat,
        d: RetryDecision,
    ) -> bool {
        let a0 = pre.ctx.attempt_num as nat;
        if stop_of(pre.policy.stop, a0, elapsed_millis) || !retryable_of(pre.policy.retry, kind) {
            d == RetryDecision::Propagate && post.ctx == pre.ctx
        } else {
            match d {
                RetryDecision::RetryAfter(w) => wait_ok_of(pre.policy.wait, a0, w as nat)
                    && post.ctx.attempt_num == a0 + 1 && post.ctx.start_millis
                    == pre.ctx.start_millis,
                RetryDecision::Propagate => false,
            }
        }
    }

    /// Starts one invocation under the given policy, with a fresh context.
    pub fn new(policy: RetryPolicy<S, W>) -> (r: Executor<S, W>)
        requires
            wait_wf_of(policy.wait),
        ensures
            r.policy == policy,
            r.ctx.attempt_num == 1,
            r.wf(),
    {
        Executor { policy, ctx: RetryingContext::new() }
    }

    /// Decides what to do after a failed attempt of the given error kind.
    /// The decision is correct for the elapsed time the clock showed during
    /// the call; when the stop policy ignores time, it is pinned outright.
    pub fn on_error(&mut self, error_kind: &str) -> (d: RetryDecision)
        requires
            old(self).wf(),
            old(self).ctx.attempt_num < u32::MAX,
        ensures
            final(self).policy == old(self).policy,
            final(self).wf(),
            exists|elapsed: nat|
                Self::decision_ok(*old(self), *final(self), error_kind@, elapsed, d),
            time_free_of(old(self).policy.stop) ==> Self::decision_ok(
                *old(self),
                *final(self),
                error_kind@,
                0,
                d,
            ),
    {
        let ghost pre = *self;
        let ghost a0 = self.ctx.attempt_num as nat;
        let ghost mut e_w: nat = 0;
        let stop_now: bool;
        match &self.policy.stop {
            Some(s) => {
                let r = s.stop_execution(&self.ctx);
                proof {
                    e_w = choose|e: nat| r == s.stop_spec(a0, e);
                    assert(stop_of(pre.policy.stop, a0, e_w) == s.stop_spec(a0, e_w));
                }
                stop_now = r;
            },
            None => {
                stop_now = false;
            },
        }
        proof {
            assert(stop_now == stop_of(pre.policy.stop, a0, e_w));
        }
        if stop_now {
            proof {
                assert(Self::decision_ok(pre, *self, error_kind@, e_w, RetryDecision::Propagate));
            }
            return RetryDecision::Propagate;
        }
        let ok = match &self.policy.retry {
            Some(f) => f.is_retryable(error_kind),
            None => true,
        };
        if !ok {
            proof {
                assert(Self::decision_ok(pre, *self, error_kind@, 0, RetryDecision::Propagate));
            }
            return RetryDecision::Propagate;
        }
        let w = match &self.policy.wait {
            Some(wp) => wp.wait_millis(&self.ctx),
            None => 0,
        };
        self.ctx.add_attempt();
        proof {
            assert(Self::decision_ok(pre, *self, error_kind@, e_w, RetryDecision::RetryAfter(w)));
            if time_free_of(pre.policy.stop) {
                assert(!stop_of(pre.policy.stop, a0, 0));
            }
        }
        RetryDecision::RetryAfter(w)
    }
}

/// Under an allow-list filter, a failure of a listed kind continues —
/// subject only to the stop policy — while a failure of any other kind is
/// terminal at once: the error is propagated with no pause and no attempt
/// counted.
pub proof fn lemma_allowlist_decision<S: Stop, W: Wait>(
    pre: Executor<S, W>,
    post: Executor<S, W>,
    kinds: Vec<String>,
    kind: Seq<char>,
    elapsed_millis: nat,
    d: RetryDecision,
)
    requires
        pre.policy.retry == Some(RetryFilter::AllowList(kinds)),
        Executor::decision_ok(pre, post, kind, elapsed_millis, d),
    ensures
        !kind_in(kinds@, kind) ==> d == RetryDecision::Propagate && post.ctx == pre.ctx,
        kind_in(kinds@, kind) && !stop_of(
            pre.policy.stop,
            pre.ctx.attempt_num as nat,
            elapsed_millis,
        ) ==> d is RetryAfter && post.ctx.attempt_num == pre.ctx.attempt_num + 1,
{
}

} // verus!
