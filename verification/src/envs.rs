//! Best-effort overriding of policy scalars through environment variables.
//!
//! The process environment is passed in as a snapshot of name/value pairs.
//! A scalar named `NAME` under prefix `PREFIX` is looked up as
//! `PREFIX__NAME`, case-insensitively over the snapshot; folding covers the
//! ASCII letters, and any other character must match exactly, which is
//! intended — environment variable names are ASCII in practice. No match leaves the
//! default in place; a single match replaces it if its value parses; a value
//! that does not parse, or several distinctly-named matches, leave the
//! default in place and report a diagnostic. An override never fails the
//! call.

use vstd::prelude::*;

use crate::RetryingError;
use crate::stop::StopAttempts;
use crate::stop::StopAttemptsOrDuration;
use crate::stop::StopDuration;
use crate::text::parse_seconds_millis;
use crate::text::parse_seconds_millis_spec;
use crate::text::parse_u32;
use crate::text::parse_u32_spec;
use crate::text::parse_usize;
use crate::text::parse_usize_spec;
use crate::text::seq_eq_ci;
use crate::text::str_eq_ci;
use crate::wait::WaitExponential;
use crate::wait::WaitFixed;
use crate::wait::WaitRandom;
use vstd::string::StringExecFns;

verus! {

/// Scalar name suffix for the bound of an attempts stop policy.
pub const RETRYING_STOP_ATTEMPTS: &'static str = "STOP__ATTEMPTS";

/// Scalar name suffix for the bound of a duration stop policy.
pub const RETRYING_STOP_DURATION: &'static str = "STOP__DURATION";

/// Scalar name suffix for the pause of a fixed wait policy.
pub const RETRYING_WAIT_FIXED: &'static str = "WAIT__FIXED";

/// Scalar name suffix for the lower bound of a random wait policy.
pub const RETRYING_WAIT_RANDOM_MIN: &'static str = "WAIT__RANDOM__MIN";

/// Scalar name suffix for the upper bound of a random wait policy.
pub const RETRYING_WAIT_RANDOM_MAX: &'static str = "WAIT__RANDOM__MAX";

/// Scalar name suffix for the multiplier of an exponential wait policy.
pub const RETRYING_WAIT_EXPONENTIAL_MULTIPLIER: &'static str = "WAIT__EXPONENTIAL__MULTIPLIER";

/// Scalar name suffix for the minimum of an exponential wait policy.
pub const RETRYING_WAIT_EXPONENTIAL_MIN: &'static str = "WAIT__EXPONENTIAL__MIN";

/// Scalar name suffix for the maximum of an exponential wait policy.
pub const RETRYING_WAIT_EXPONENTIAL_MAX: &'static str = "WAIT__EXPONENTIAL__MAX";

/// Scalar name suffix for the base of an exponential wait policy.
pub const RETRYING_WAIT_EXPONENTIAL_EXP_BASE: &'static str = "WAIT__EXPONENTIAL__EXP_BASE";

/// How many snapshot entries have a name equal to `pat` up to ASCII case.
pub open spec fn ci_match_count(env: Seq<(String, String)>, pat: Seq<char>) -> nat
    decreases env.len(),
{
    if env.len() == 0 {
        0
    } else {
        ci_match_count(env.drop_last(), pat) + if seq_eq_ci(env.last().0@, pat) {
            1nat
        } else {
            0nat
        }
    }
}

/// An entry that matches makes the match count positive.
proof fn lemma_ci_match_at(env: Seq<(String, String)>, pat: Seq<char>, i: int)
    requires
        0 <= i < env.len(),
        seq_eq_ci(env[i].0@, pat),
    ensures
        ci_match_count(env, pat) >= 1,
    decreases env.len(),
{
    if i < env.len() - 1 {
        lemma_ci_match_at(env.drop_last(), pat, i);
    }
}

/// Two distinct matching entries make the match count at least two.
proof fn lemma_ci_match_two(env: Seq<(String, String)>, pat: Seq<char>, i: int, j: int)
    requires
        0 <= i < j < env.len(),
        seq_eq_ci(env[i].0@, pat),
        seq_eq_ci(env[j].0@, pat),
    ensures
        ci_match_count(env, pat) >= 2,
    decreases env.len(),
{
    if j < env.len() - 1 {
        lemma_ci_match_two(env.drop_last(), pat, i, j);
    } else {
        lemma_ci_match_at(env.drop_last(), pat, i);
    }
}

/// The diagnostic for an ambiguous lookup, naming the looked-up pattern.
pub open spec fn ambiguity_message(pattern: Seq<char>) -> Seq<char> {
    "More than one environment is available for pattern "@ + pattern
        + ". Please unset unnecessary variables and leave exactly one."@
}

/// The diagnostic for an unusable override value, naming the variable and
/// the value.
pub open spec fn parse_failure_message(pattern: Seq<char>, value: Seq<char>) -> Seq<char> {
    "Failed to parse OS env variable '"@ + pattern + "' with value '"@ + value + "'."@
}

/// With exactly one match, the matching index is unique.
pub proof fn lemma_ci_match_unique(env: Seq<(String, String)>, pat: Seq<char>, i: int, j: int)
    requires
        ci_match_count(env, pat) <= 1,
        0 <= i < env.len(),
        0 <= j < env.len(),
        seq_eq_ci(env[i].0@, pat),
        seq_eq_ci(env[j].0@, pat),
    ensures
        i == j,
{
    if i < j {
        lemma_ci_match_two(env, pat, i, j);
    } else if j < i {
        lemma_ci_match_two(env, pat, j, i);
    }
}

/// Looks a name up in the environment snapshot, case-insensitively (ASCII
/// letters fold; any other character must match exactly). An empty name or
/// no match yields nothing; a single match yields that entry's value;
/// several matches are ambiguous and an error naming the pattern.
pub fn get_env_case_insensitive(environment: &String, env: &Vec<(String, String)>) -> (r: Result<
    Option<String>,
    RetryingError,
>)
    ensures
        ({
            let pat = environment@;
            if pat.len() == 0 {
                r == Ok::<Option<String>, RetryingError>(None)
            } else {
                let m = ci_match_count(env@, pat);
                &&& (m == 0 ==> r == Ok::<Option<String>, RetryingError>(None))
                &&& (m == 1 ==> (match r {
                    Ok(found) => match found {
                        Some(v) => exists|i: int|
                            0 <= i < env@.len() && seq_eq_ci(env@[i].0@, pat) && v@ == env@[i].1@,
                        None => false,
                    },
                    Err(e) => false,
                }))
                &&& (m >= 2 ==> (match r {
                    Ok(found) => false,
                    Err(e) => e.msg@ == ambiguity_message(environment@),
                }))
            }
        }),
{
    if environment.as_str().is_empty() {
        return Ok(None);
    }
    let ghost pat = environment@;
    let mut count: usize = 0;
    let mut found: Option<String> = None;
    let mut i: usize = 0;
    while i < env.len()
        invariant
            i <= env@.len(),
            count == ci_match_count(env@.take(i as int), pat),
            count <= i,
            pat == environment@,
            count == 0 ==> found is None,
            count >= 1 ==> (match found {
                Some(v) => exists|k: int|
                    0 <= k < i && seq_eq_ci(env@[k].0@, pat) && v@ == env@[k].1@,
                None => false,
            }),
        decreases env@.len() - i,
    {
        proof {
            assert(env@.take(i + 1).drop_last() =~= env@.take(i as int));
            assert(env@.take(i + 1).last() == env@[i as int]);
        }
        if str_eq_ci(env[i].0.as_str(), environment.as_str()) {
            if count == 0 {
                found = Some(env[i].1.clone());
            }
            count = count + 1;
        }
        i = i + 1;
    }
    proof {
        assert(env@.take(env@.len() as int) =~= env@);
    }
    if count == 0 {
        Ok(None)
    } else if count >= 2 {
        let mut msg = String::from_str("More than one environment is available for pattern ");
        msg.append(environment.as_str());
        msg.append(". Please unset unnecessary variables and leave exactly one.");
        proof {
            assert(msg@ =~= ambiguity_message(environment@));
        }
        Err(RetryingError { msg })
    } else {
        match found {
            Some(v) => Ok(Some(v)),
            None => Ok(None),
        }
    }
}

/// A configuration scalar that can be read from environment variable text.
/// `u32` and `usize` scalars use plain decimal notation; `u64` scalars are
/// durations in milliseconds, written as decimal seconds with an optional
/// fraction.
pub trait EnvScalar: Sized {
    /// What parsing the scalar from text yields.
    spec fn parse_spec(s: Seq<char>) -> Option<Self>;

    /// Parses the scalar from text.
    fn parse_env_text(s: &str) -> (r: Option<Self>)
        ensures
            r == Self::parse_spec(s@),
    ;
}

impl EnvScalar for u32 {
    open spec fn parse_spec(s: Seq<char>) -> Option<u32> {
        parse_u32_spec(s)
    }

    fn parse_env_text(s: &str) -> (r: Option<u32>) {
        parse_u32(s)
    }
}

impl EnvScalar for u64 {
    open spec fn parse_spec(s: Seq<char>) -> Option<u64> {
        parse_seconds_millis_spec(s)
    }

    fn parse_env_text(s: &str) -> (r: Option<u64>) {
        parse_seconds_millis(s)
    }
}

impl EnvScalar for usize {
    open spec fn parse_spec(s: Seq<char>) -> Option<usize> {
        parse_usize_spec(s)
    }

    fn parse_env_text(s: &str) -> (r: Option<usize>) {
        parse_usize(s)
    }
}

/// The variable name under which a scalar is looked up: the prefix and the
/// scalar's name, joined by a double underscore.
pub open spec fn env_pattern(prefix: Seq<char>, name: Seq<char>) -> Seq<char> {
    prefix + "__"@ + name
}

/// The value an override resolves to: the parsed value of the single
/// matching variable, or the default when there is no match, no parse, or
/// an ambiguity.
pub open spec fn override_value_spec<T: EnvScalar>(
    original: T,
    prefix: Seq<char>,
    name: Seq<char>,
    env: Seq<(String, String)>,
) -> T {
    let pat = env_pattern(prefix, name);
    if ci_match_count(env, pat) != 1 {
        original
    } else {
        let i = choose|i: int| 0 <= i < env.len() && seq_eq_ci(#[trigger] env[i].0@, pat);
        match T::parse_spec(env[i].1@) {
            Some(v) => v,
            None => original,
        }
    }
}

/// Whether resolving an override reports a diagnostic: yes on an ambiguity
/// or an unparsable value, no otherwise.
pub open spec fn override_diag_spec<T: EnvScalar>(
    prefix: Seq<char>,
    name: Seq<char>,
    env: Seq<(String, String)>,
) -> bool {
    let pat = env_pattern(prefix, name);
    let m = ci_match_count(env, pat);
    if m == 0 {
        false
    } else if m >= 2 {
        true
    } else {
        let i = choose|i: int| 0 <= i < env.len() && seq_eq_ci(#[trigger] env[i].0@, pat);
        T::parse_spec(env[i].1@) is None
    }
}

/// Resolves a default scalar against the environment snapshot: the parsed
/// value of the variable `{prefix}__{name}` if exactly one variable matches
/// that name case-insensitively and its value parses; the default otherwise,
/// with a diagnostic when a match was found but could not be used. The
/// override is best-effort and never fails.
pub fn override_by_env<T: EnvScalar>(
    original: T,
    prefix: &str,
    name: &str,
    env: &Vec<(String, String)>,
) -> (r: (T, Option<RetryingError>))
    ensures
        r.0 == override_value_spec(original, prefix@, name@, env@),
        (r.1 is Some) == override_diag_spec::<T>(prefix@, name@, env@),
        (match r.1 {
            Some(d) => ({
                let pat = env_pattern(prefix@, name@);
                if ci_match_count(env@, pat) >= 2 {
                    d.msg@ == ambiguity_message(pat)
                } else {
                    exists|i: int|
                        0 <= i < env@.len() && seq_eq_ci(#[trigger] env@[i].0@, pat) && d.msg@
                            == parse_failure_message(pat, env@[i].1@)
                }
            }),
            None => true,
        }),
{
    let mut pattern = prefix.to_owned();
    pattern.append("__");
    pattern.append(name);
    proof {
        reveal_strlit("__");
        assert(pattern@ =~= env_pattern(prefix@, name@));
        assert(pattern@.len() >= 2);
    }
    let ghost pat = env_pattern(prefix@, name@);
    match get_env_case_insensitive(&pattern, env) {
        Ok(found) => match found {
            Some(v) => {
                proof {
                    let i0 = choose|i: int|
                        0 <= i < env@.len() && seq_eq_ci(#[trigger] env@[i].0@, pat) && v@
                            == env@[i].1@;
                    let i1 = choose|i: int|
                        0 <= i < env@.len() && seq_eq_ci(#[trigger] env@[i].0@, pat);
                    lemma_ci_match_unique(env@, pat, i0, i1);
                    assert(v@ == env@[i1].1@);
                }
                match T::parse_env_text(v.as_str()) {
                    Some(parsed) => (parsed, None),
                    None => {
                        let mut msg = String::from_str("Failed to parse OS env variable '");
                        msg.append(pattern.as_str());
                        msg.append("' with value '");
                        msg.append(v.as_str());
                        msg.append("'.");
                        proof {
                            assert(msg@ =~= parse_failure_message(pat, v@));
                        }
                        (original, Some(RetryingError { msg }))
                    },
                }
            },
            None => (original, None),
        },
        Err(e) => (original, Some(e)),
    }
}

/// A value that must stay at least 1: zero falls back to the default.
pub open spec fn positive_u32_or(v: u32, fallback: u32) -> u32 {
    if v == 0 {
        fallback
    } else {
        v
    }
}

/// A value that must stay at least 1: zero falls back to the default.
pub open spec fn positive_u64_or(v: u64, fallback: u64) -> u64 {
    if v == 0 {
        fallback
    } else {
        v
    }
}

/// Builds an attempts stop policy, resolving the bound against the
/// environment when a prefix is given; with no prefix, no lookup occurs. An
/// override of zero cannot be a bound and falls back to the default with a
/// diagnostic.
pub fn stop_attempts_with_env(attempts: u32, prefix: Option<&str>, env: &Vec<(String, String)>) -> (r: (
    StopAttempts,
    Vec<RetryingError>,
))
    requires
        attempts >= 1,
    ensures
        r.0.attempts >= 1,
        prefix is None ==> r.0.attempts == attempts && r.1@.len() == 0,
        (match prefix {
            Some(p) => ({
                let v = override_value_spec(attempts, p@, RETRYING_STOP_ATTEMPTS@, env@);
                &&& r.0.attempts == positive_u32_or(v, attempts)
                &&& r.1@.len() == (if override_diag_spec::<u32>(p@, RETRYING_STOP_ATTEMPTS@, env@)
                    || v == 0 {
                    1int
                } else {
                    0int
                })
            }),
            None => true,
        }),
{
    let p = match prefix {
        Some(p) => p,
        None => {
            return (StopAttempts::new(attempts), Vec::new());
        },
    };
    let (v, diag) = override_by_env::<u32>(attempts, p, RETRYING_STOP_ATTEMPTS, env);
    let mut diags: Vec<RetryingError> = Vec::new();
    match diag {
        Some(e) => {
            diags.push(e);
        },
        None => {
        },
    }
    if v == 0 {
        diags.push(RetryingError::new("an attempts bound must be at least 1; the default stays"));
        (StopAttempts::new(attempts), diags)
    } else {
        (StopAttempts::new(v), diags)
    }
}

/// Builds a duration stop policy, resolving the bound against the
/// environment when a prefix is given; with no prefix, no lookup occurs. An
/// override of zero cannot be a bound and falls back to the default with a
/// diagnostic.
pub fn stop_duration_with_env(
    duration_millis: u64,
    prefix: Option<&str>,
    env: &Vec<(String, String)>,
) -> (r: (StopDuration, Vec<RetryingError>))
    requires
        duration_millis >= 1,
    ensures
        r.0.duration_millis >= 1,
        prefix is None ==> r.0.duration_millis == duration_millis && r.1@.len() == 0,
        (match prefix {
            Some(p) => ({
                let v = override_value_spec(duration_millis, p@, RETRYING_STOP_DURATION@, env@);
                &&& r.0.duration_millis == positive_u64_or(v, duration_millis)
                &&& r.1@.len() == (if override_diag_spec::<u64>(p@, RETRYING_STOP_DURATION@, env@)
                    || v == 0 {
                    1int
                } else {
                    0int
                })
            }),
            None => true,
        }),
{
    let p = match prefix {
        Some(p) => p,
        None => {
            return (StopDuration::new(duration_millis), Vec::new());
        },
    };
    let (v, diag) = override_by_env::<u64>(duration_millis, p, RETRYING_STOP_DURATION, env);
    let mut diags: Vec<RetryingError> = Vec::new();
    match diag {
        Some(e) => {
            diags.push(e);
        },
        None => {
        },
    }
    if v == 0 {
        diags.push(RetryingError::new("a duration bound must be positive; the default stays"));
        (StopDuration::new(duration_millis), diags)
    } else {
        (StopDuration::new(v), diags)
    }
}

/// Builds a combined attempts-or-duration stop policy, resolving both bounds
/// against the environment independently when a prefix is given; with no
/// prefix, no lookup occurs.
pub fn stop_attempts_or_duration_with_env(
    attempts: u32,
    duration_millis: u64,
    prefix: Option<&str>,
    env: &Vec<(String, String)>,
) -> (r: (StopAttemptsOrDuration, Vec<RetryingError>))
    requires
        attempts >= 1,
        duration_millis >= 1,
    ensures
        prefix is None ==> r.0.attempts.attempts == attempts && r.0.duration.duration_millis
            == duration_millis && r.1@.len() == 0,
        (match prefix {
            Some(p) => ({
                let va = override_value_spec(attempts, p@, RETRYING_STOP_ATTEMPTS@, env@);
                let vd = override_value_spec(duration_millis, p@, RETRYING_STOP_DURATION@, env@);
                &&& r.0.attempts.attempts == positive_u32_or(va, attempts)
                &&& r.0.duration.duration_millis == positive_u64_or(vd, duration_millis)
                &&& r.1@.len() == (if override_diag_spec::<u32>(p@, RETRYING_STOP_ATTEMPTS@, env@)
                    || va == 0 {
                    1int
                } else {
                    0int
                }) + (if override_diag_spec::<u64>(p@, RETRYING_STOP_DURATION@, env@) || vd == 0 {
                    1int
                } else {
                    0int
                })
            }),
            None => true,
        }),
{
    let (a, mut diags) = stop_attempts_with_env(attempts, prefix, env);
    let (d, mut more) = stop_duration_with_env(duration_millis, prefix, env);
    diags.append(&mut more);
    (StopAttemptsOrDuration::new(a.attempts, d.duration_millis), diags)
}

/// Builds a fixed wait policy, resolving the pause against the environment
/// when a prefix is given; with no prefix, no lookup occurs.
pub fn wait_fixed_with_env(millis: u64, prefix: Option<&str>, env: &Vec<(String, String)>) -> (r: (
    WaitFixed,
    Vec<RetryingError>,
))
    ensures
        prefix is None ==> r.0.millis == millis && r.1@.len() == 0,
        (match prefix {
            Some(p) => ({
                &&& r.0.millis == override_value_spec(millis, p@, RETRYING_WAIT_FIXED@, env@)
                &&& r.1@.len() == (if override_diag_spec::<u64>(p@, RETRYING_WAIT_FIXED@, env@) {
                    1int
                } else {
                    0int
                })
            }),
            None => true,
        }),
{
    let p = match prefix {
        Some(p) => p,
        None => {
            return (WaitFixed::new(millis), Vec::new());
        },
    };
    let (v, diag) = override_by_env::<u64>(millis, p, RETRYING_WAIT_FIXED, env);
    let mut diags: Vec<RetryingError> = Vec::new();
    match diag {
        Some(e) => {
            diags.push(e);
        },
        None => {
        },
    }
    (WaitFixed::new(v), diags)
}

/// Builds a random wait policy, resolving both bounds against the
/// environment independently when a prefix is given; with no prefix, no
/// lookup occurs. Overrides that would put the lower bound above the upper
/// one cannot form an interval: both defaults stay, with a diagnostic.
pub fn wait_random_with_env(
    min_millis: u64,
    max_millis: u64,
    prefix: Option<&str>,
    env: &Vec<(String, String)>,
) -> (r: (WaitRandom, Vec<RetryingError>))
    requires
        min_millis <= max_millis,
    ensures
        r.0.min_millis <= r.0.max_millis,
        prefix is None ==> r.0.min_millis == min_millis && r.0.max_millis == max_millis
            && r.1@.len() == 0,
        (match prefix {
            Some(p) => ({
                let mn = override_value_spec(min_millis, p@, RETRYING_WAIT_RANDOM_MIN@, env@);
                let mx = override_value_spec(max_millis, p@, RETRYING_WAIT_RANDOM_MAX@, env@);
                &&& r.0.min_millis == (if mn <= mx {
                    mn
                } else {
                    min_millis
                })
                &&& r.0.max_millis == (if mn <= mx {
                    mx
                } else {
                    max_millis
                })
                &&& r.1@.len() == (if override_diag_spec::<u64>(p@, RETRYING_WAIT_RANDOM_MIN@, env@) {
                    1int
                } else {
                    0int
                }) + (if override_diag_spec::<u64>(p@, RETRYING_WAIT_RANDOM_MAX@, env@) {
                    1int
                } else {
                    0int
                }) + (if mn <= mx {
                    0int
                } else {
                    1int
                })
            }),
            None => true,
        }),
{
    let p = match prefix {
        Some(p) => p,
        None => {
            return (WaitRandom::new(min_millis, max_millis), Vec::new());
        },
    };
    let (mn, diag_mn) = override_by_env::<u64>(min_millis, p, RETRYING_WAIT_RANDOM_MIN, env);
    let (mx, diag_mx) = override_by_env::<u64>(max_millis, p, RETRYING_WAIT_RANDOM_MAX, env);
    let mut diags: Vec<RetryingError> = Vec::new();
    match diag_mn {
        Some(e) => {
            diags.push(e);
        },
        None => {
        },
    }
    match diag_mx {
        Some(e) => {
            diags.push(e);
        },
        None => {
        },
    }
    if mn <= mx {
        (WaitRandom::new(mn, mx), diags)
    } else {
        diags.push(
            RetryingError::new(
                "the overridden bounds do not form an interval; the defaults stay",
            ),
        );
        (WaitRandom::new(min_millis, max_millis), diags)
    }
}

/// Builds an exponential wait policy, resolving every scalar against the
/// environment independently when a prefix is given; with no prefix, no
/// lookup occurs. An override of zero cannot be an exponent base and falls
/// back to the default with a diagnostic.
pub fn wait_exponential_with_env(
    multiplier_millis: u64,
    min_millis: u64,
    max_millis: u64,
    exp_base: u32,
    prefix: Option<&str>,
    env: &Vec<(String, String)>,
) -> (r: (WaitExponential, Vec<RetryingError>))
    requires
        exp_base >= 1,
    ensures
        r.0.exp_base >= 1,
        prefix is None ==> r.0.multiplier_millis == multiplier_millis && r.0.min_millis
            == min_millis && r.0.max_millis == max_millis && r.0.exp_base == exp_base
            && r.1@.len() == 0,
        (match prefix {
            Some(p) => ({
                let vb = override_value_spec(
                    exp_base,
                    p@,
                    RETRYING_WAIT_EXPONENTIAL_EXP_BASE@,
                    env@,
                );
                &&& r.0.multiplier_millis == override_value_spec(
                    multiplier_millis,
                    p@,
                    RETRYING_WAIT_EXPONENTIAL_MULTIPLIER@,
                    env@,
                )
                &&& r.0.min_millis == override_value_spec(
                    min_millis,
                    p@,
                    RETRYING_WAIT_EXPONENTIAL_MIN@,
                    env@,
                )
                &&& r.0.max_millis == override_value_spec(
                    max_millis,
                    p@,
                    RETRYING_WAIT_EXPONENTIAL_MAX@,
                    env@,
                )
                &&& r.0.exp_base == positive_u32_or(vb, exp_base)
                &&& r.1@.len() == (if override_diag_spec::<u64>(
                    p@,
                    RETRYING_WAIT_EXPONENTIAL_MULTIPLIER@,
                    env@,
                ) {
                    1int
                } else {
                    0int
                }) + (if override_diag_spec::<u64>(p@, RETRYING_WAIT_EXPONENTIAL_MIN@, env@) {
                    1int
                } else {
                    0int
                }) + (if override_diag_spec::<u64>(p@, RETRYING_WAIT_EXPONENTIAL_MAX@, env@) {
                    1int
                } else {
                    0int
                }) + (if override_diag_spec::<u32>(p@, RETRYING_WAIT_EXPONENTIAL_EXP_BASE@, env@) {
                    1int
                } else {
                    0int
                }) + (if vb == 0 {
                    1int
                } else {
                    0int
                })
            }),
            None => true,
        }),
{
    let p = match prefix {
        Some(p) => p,
        None => {
            return (
                WaitExponential::new(multiplier_millis, min_millis, max_millis, exp_base),
                Vec::new(),
            );
        },
    };
    let (vm, diag_m) = override_by_env::<u64>(
        multiplier_millis,
        p,
        RETRYING_WAIT_EXPONENTIAL_MULTIPLIER,
        env,
    );
    let (vmin, diag_min) = override_by_env::<u64>(
        min_millis,
        p,
        RETRYING_WAIT_EXPONENTIAL_MIN,
        env,
    );
    let (vmax, diag_max) = override_by_env::<u64>(
        max_millis,
        p,
        RETRYING_WAIT_EXPONENTIAL_MAX,
        env,
    );
    let (vb, diag_b) = override_by_env::<u32>(
        exp_base,
        p,
        RETRYING_WAIT_EXPONENTIAL_EXP_BASE,
        env,
    );
    let mut diags: Vec<RetryingError> = Vec::new();
    match diag_m {
        Some(e) => {
            diags.push(e);
        },
        None => {
        },
    }
    match diag_min {
        Some(e) => {
            diags.push(e);
        },
        None => {
        },
    }
    match diag_max {
        Some(e) => {
            diags.push(e);
        },
        None => {
        },
    }
    match diag_b {
        Some(e) => {
            diags.push(e);
        },
        None => {
        },
    }
    let base = if vb == 0 {
        diags.push(RetryingError::new("an exponent base must be at least 1; the default stays"));
        exp_base
    } else {
        vb
    };
    (WaitExponential::new(vm, vmin, vmax, base), diags)
}

} // verus!
