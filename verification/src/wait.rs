//! Wait policies: rules computing the pause before the next attempt, in
//! milliseconds.
//!
//! Each policy's admissible results are captured by the `wait_ok` relation of
//! the [`Wait`] trait: a constant for a fixed pause, an inclusive interval
//! for a random pause, and an exact clamped exponential formula for backoff.

use vstd::prelude::*;

use crate::RetryingContext;
use vstd::arithmetic::power::lemma1_pow;
use vstd::arithmetic::power::lemma_pow0;
use vstd::arithmetic::power::lemma_pow1;
use vstd::arithmetic::power::lemma_pow_adds;
use vstd::arithmetic::power::lemma_pow_increases;
use vstd::arithmetic::power::lemma_pow_positive;
use vstd::arithmetic::power::pow;

verus! {

/// A rule computing the delay before the next attempt.
pub trait Wait {
    /// Well-formedness of the policy's parameters.
    spec fn wf(&self) -> bool;

    /// Which delays the policy may produce for a given attempt number.
    spec fn wait_ok(&self, attempt_num: nat, millis: nat) -> bool;

    /// Computes the delay, in milliseconds, before the next attempt. The
    /// attempt number is read before any increment for the pending cycle.
    fn wait_millis(&self, ctx: &RetryingContext) -> (r: u64)
        requires
            self.wf(),
            ctx.attempt_num >= 1,
        ensures
            self.wait_ok(ctx.attempt_num as nat, r as nat),
    ;
}

/// A constant pause.
pub struct WaitFixed {
    pub millis: u64,
}

impl WaitFixed {
    pub fn new(millis: u64) -> (r: WaitFixed)
        ensures
            r.millis == millis,
    {
        WaitFixed { millis }
    }
}

impl Wait for WaitFixed {
    open spec fn wf(&self) -> bool {
        true
    }

    open spec fn wait_ok(&self, attempt_num: nat, millis: nat) -> bool {
        millis == self.millis
    }

    fn wait_millis(&self, ctx: &RetryingContext) -> (r: u64) {
        self.millis
    }
}

/// Relies on rand::Rng::gen_range over an inclusive integer range: the result
/// is uniformly drawn within the bounds, freshly on every call, without
/// synchronization between callers. The call panics only on an empty range,
/// which the precondition rules out.
#[verifier::external_body]
fn random_u64_inclusive(min: u64, max: u64) -> (r: u64)
    requires
        min <= max,
    ensures
        min <= r <= max,
{
    let mut rng = rand::thread_rng();
    rand::Rng::gen_range(&mut rng, min..=max)
}

/// A pause drawn uniformly from an inclusive interval, freshly on every
/// call; it is neither stored nor reproducible.
pub struct WaitRandom {
    pub min_millis: u64,
    pub max_millis: u64,
}

impl WaitRandom {
    pub fn new(min_millis: u64, max_millis: u64) -> (r: WaitRandom)
        requires
            min_millis <= max_millis,
        ensures
            r.min_millis == min_millis,
            r.max_millis == max_millis,
    {
        WaitRandom { min_millis, max_millis }
    }
}

impl Wait for WaitRandom {
    open spec fn wf(&self) -> bool {
        self.min_millis <= self.max_millis
    }

    open spec fn wait_ok(&self, attempt_num: nat, millis: nat) -> bool {
        self.min_millis <= millis <= self.max_millis
    }

    fn wait_millis(&self, ctx: &RetryingContext) -> (r: u64) {
        random_u64_inclusive(self.min_millis, self.max_millis)
    }
}

/// Exponential backoff: for attempt number `a` the delay is
/// `multiplier_millis * exp_base ^ (a - 1) + min_millis`, clamped from above
/// to `max_millis`.
pub struct WaitExponential {
    pub multiplier_millis: u64,
    pub min_millis: u64,
    pub max_millis: u64,
    pub exp_base: u32,
}

impl WaitExponential {
    pub fn new(multiplier_millis: u64, min_millis: u64, max_millis: u64, exp_base: u32) -> (r:
        WaitExponential)
        requires
            exp_base >= 1,
        ensures
            r.multiplier_millis == multiplier_millis,
            r.min_millis == min_millis,
            r.max_millis == max_millis,
            r.exp_base == exp_base,
    {
        WaitExponential { multiplier_millis, min_millis, max_millis, exp_base }
    }

    /// The unclamped delay for a given attempt number.
    pub open spec fn raw_delay(&self, attempt_num: nat) -> int {
        let k = if attempt_num >= 1 {
            (attempt_num - 1) as nat
        } else {
            0
        };
        self.multiplier_millis * pow(self.exp_base as int, k) + self.min_millis
    }

    /// The delay for a given attempt number, clamped to the maximum.
    pub open spec fn delay_spec(&self, attempt_num: nat) -> int {
        if self.raw_delay(attempt_num) > self.max_millis {
            self.max_millis as int
        } else {
            self.raw_delay(attempt_num)
        }
    }
}

impl Wait for WaitExponential {
    open spec fn wf(&self) -> bool {
        self.exp_base >= 1
    }

    open spec fn wait_ok(&self, attempt_num: nat, millis: nat) -> bool {
        millis == self.delay_spec(attempt_num)
    }

    #[verifier::loop_isolation(false)]
    fn wait_millis(&self, ctx: &RetryingContext) -> (r: u64) {
        let ghost a = ctx.attempt_num as nat;
        let ghost k_spec = (a - 1) as nat;
        let ghost base = self.exp_base as int;
        proof {
            lemma_pow_positive(base, k_spec);
        }
        let k: u32 = ctx.attempt_num - 1;

        if self.multiplier_millis == 0 {
            // The power term vanishes, so the raw delay is just the minimum.
            let r = if self.min_millis > self.max_millis {
                self.max_millis
            } else {
                self.min_millis
            };
            return r;
        }

        let p: u64;
        if self.exp_base == 1 {
            proof {
                lemma1_pow(k_spec);
            }
            p = 1;
        } else if k == 0 {
            proof {
                lemma_pow0(base);
            }
            p = 1;
        } else {
            let mut acc: u64 = 1;
            let mut i: u32 = 0;
            proof {
                lemma_pow0(base);
            }
            while i < k
                invariant
                    i <= k,
                    acc == pow(base, i as nat),
                    acc >= 1,
                decreases k - i,
            {
                match acc.checked_mul(self.exp_base as u64) {
                    Some(next) => {
                        proof {
                            lemma_pow_adds(base, i as nat, 1);
                            lemma_pow1(base);
                            lemma_pow_positive(base, (i + 1) as nat);
                            assert(pow(base, (i + 1) as nat) == pow(base, i as nat) * base);
                        }
                        acc = next;
                        i = i + 1;
                    },
                    None => {
                        // The power already exceeds the u64 range, so the raw
                        // delay exceeds every representable maximum.
                        proof {
                            lemma_pow_adds(base, i as nat, 1);
                            lemma_pow1(base);
                            assert(pow(base, (i + 1) as nat) == pow(base, i as nat) * base);
                            assert(pow(base, (i + 1) as nat) > u64::MAX);
                            lemma_pow_increases(self.exp_base as nat, (i + 1) as nat, k_spec);
                            assert(pow(base, k_spec) > u64::MAX);
                            assert(self.multiplier_millis * pow(base, k_spec) >= pow(base, k_spec))
                                by (nonlinear_arith)
                                requires
                                    self.multiplier_millis >= 1,
                                    pow(base, k_spec) >= 0,
                            ;
                            assert(self.raw_delay(a) > self.max_millis);
                        }
                        return self.max_millis;
                    },
                }
            }
            p = acc;
        }
        proof {
            assert(p == pow(base, k_spec));
        }
        match self.multiplier_millis.checked_mul(p) {
            Some(prod) => {
                match prod.checked_add(self.min_millis) {
                    Some(sum) => {
                        if sum > self.max_millis {
                            self.max_millis
                        } else {
                            sum
                        }
                    },
                    None => {
                        // multiplier * power + minimum exceeds the u64 range.
                        self.max_millis
                    },
                }
            },
            None => {
                // multiplier * power alone exceeds the u64 range.
                proof {
                    assert(self.raw_delay(a) > self.max_millis);
                }
                self.max_millis
            },
        }
    }
}

} // verus!
