//! Overrides for whole-number and string configuration scalars, with their
//! own error type for diagnostics.
//!
//! Resolution follows the same rule as the policy scalars: the variable
//! `{prefix}__{name}` is looked up case-insensitively (ASCII letters fold;
//! any other character must match exactly) over the snapshot, the single
//! match replaces the default when usable, and anything else — no match, an
//! ambiguity, an empty or unparsable value — leaves the default in place. A
//! diagnostic naming the variable is returned as a value; an override never
//! fails the call.

use vstd::prelude::*;

use crate::envs::ambiguity_message;
use crate::envs::ci_match_count;
use crate::envs::env_pattern;
use crate::envs::get_env_case_insensitive;
use crate::envs::override_by_env;
use crate::envs::override_diag_spec;
use crate::envs::override_value_spec;
use crate::envs::parse_failure_message;
use crate::text::seq_eq_ci;
use vstd::string::StringExecFns;

verus! {

/// Error describing why an override could not be applied.
#[derive(Debug, Clone)]
pub struct TenacityError {
    pub msg: String,
}

impl TenacityError {
    pub fn from_str(msg: &str) -> (r: TenacityError)
        ensures
            r.msg@ == msg@,
    {
        TenacityError { msg: msg.to_owned() }
    }

    pub fn from_string(msg: String) -> (r: TenacityError)
        ensures
            r.msg@ == msg@,
    {
        TenacityError { msg }
    }
}

/// The diagnostic for a variable that is set but holds nothing, naming the
/// looked-up pattern.
pub open spec fn empty_value_message(pattern: Seq<char>) -> Seq<char> {
    "OS environment variable "@ + pattern + " is empty; the default stays"@
}

/// Looks a name up in the environment snapshot, case-insensitively (ASCII
/// letters fold; any other character must match exactly). An empty name or
/// no match yields nothing; a single non-empty match yields that entry's
/// value; an empty value or several matches yield a diagnostic naming the
/// pattern.
fn get_env_variable_value(environment: &String, env: &Vec<(String, String)>) -> (r: (
    Option<String>,
    Option<TenacityError>,
))
    ensures
        ({
            let pat = environment@;
            if pat.len() == 0 {
                r.0 is None && r.1 is None
            } else {
                let m = ci_match_count(env@, pat);
                &&& (m == 0 ==> r.0 is None && r.1 is None)
                &&& (m == 1 ==> exists|i: int|
                    0 <= i < env@.len() && seq_eq_ci(#[trigger] env@[i].0@, pat) && (if env@[i].1@.len()
                        == 0 {
                        r.0 is None && (match r.1 {
                            Some(d) => d.msg@ == empty_value_message(pat),
                            None => false,
                        })
                    } else {
                        (match r.0 {
                            Some(v) => v@ == env@[i].1@,
                            None => false,
                        }) && r.1 is None
                    }))
                &&& (m >= 2 ==> r.0 is None && (match r.1 {
                    Some(d) => d.msg@ == ambiguity_message(pat),
                    None => false,
                }))
            }
        }),
{
    match get_env_case_insensitive(environment, env) {
        Ok(found) => match found {
            Some(v) => {
                if v.as_str().is_empty() {
                    let mut msg = String::from_str("OS environment variable ");
                    msg.append(environment.as_str());
                    msg.append(" is empty; the default stays");
                    proof {
                        assert(msg@ =~= empty_value_message(environment@));
                    }
                    (None, Some(TenacityError { msg }))
                } else {
                    (Some(v), None)
                }
            },
            None => (None, None),
        },
        Err(e) => (None, Some(TenacityError::from_string(e.msg))),
    }
}

/// Resolves a default integer against the environment snapshot: the parsed
/// value of the variable `{prefix}__{name}` if exactly one variable matches
/// that name case-insensitively and its value parses; the default otherwise,
/// with a diagnostic when a match was found but could not be used. The
/// override is best-effort and never fails.
pub fn overrite_int_by_env(
    original: usize,
    prefix: &str,
    name: &str,
    env: &Vec<(String, String)>,
) -> (r: (usize, Option<TenacityError>))
    ensures
        r.0 == override_value_spec(original, prefix@, name@, env@),
        (r.1 is Some) == override_diag_spec::<usize>(prefix@, name@, env@),
        (match r.1 {
            Some(d) => ({
                let pat = env_pattern(prefix@, name@);
                if ci_match_count(env@, pat) >= 2 {
                    d.msg@ == ambiguity_message(pat)
                } else {
                    exists|i: int|
                        0 <= i < env@.len() && seq_eq_ci(#[trigger] env@[i].0@, pat) && d.msg@
                            == parse_failure_message(pat, env@[i].1@)
                }
            }),
            None => true,
        }),
{
    let (v, diag) = override_by_env::<usize>(original, prefix, name, env);
    match diag {
        Some(e) => (v, Some(TenacityError::from_string(e.msg))),
        None => (v, None),
    }
}

/// Resolves a default string against the environment snapshot: the value of
/// the variable `{prefix}__{name}` if exactly one variable matches that name
/// case-insensitively and its value is non-empty; the default otherwise,
/// with a diagnostic when a match was found but could not be used. The
/// override is best-effort and never fails.
pub fn override_str_by_env(
    original: String,
    prefix: &str,
    name: &str,
    env: &Vec<(String, String)>,
) -> (r: (String, Option<TenacityError>))
    ensures
        ({
            let pat = env_pattern(prefix@, name@);
            let m = ci_match_count(env@, pat);
            &&& (m == 0 ==> r.0@ == original@ && r.1 is None)
            &&& (m == 1 ==> exists|i: int|
                0 <= i < env@.len() && seq_eq_ci(#[trigger] env@[i].0@, pat) && (if env@[i].1@.len()
                    == 0 {
                    r.0@ == original@ && (match r.1 {
                        Some(d) => d.msg@ == empty_value_message(pat),
                        None => false,
                    })
                } else {
                    r.0@ == env@[i].1@ && r.1 is None
                }))
            &&& (m >= 2 ==> r.0@ == original@ && (match r.1 {
                Some(d) => d.msg@ == ambiguity_message(pat),
                None => false,
            }))
        }),
{
    let mut pattern = prefix.to_owned();
    pattern.append("__");
    pattern.append(name);
    proof {
        reveal_strlit("__");
        assert(pattern@ =~= env_pattern(prefix@, name@));
        assert(pattern@.len() >= 2);
    }
    let (found, diag) = get_env_variable_value(&pattern, env);
    match found {
        Some(v) => (v, diag),
        None => match diag {
            Some(d) => (original, Some(d)),
            None => (original, None),
        },
    }
}

} // verus!
