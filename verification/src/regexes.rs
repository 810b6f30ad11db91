//! The regex engine, as the classifier sees it.
//!
//! Pattern matching itself is delegated to the `regex` crate; these are the
//! only items of the library that call into it. What the engine computes is
//! a function of the pattern and the input alone, so the results are given
//! names that the contracts of the compiler and the classifier speak of.

use vstd::prelude::*;

verus! {

/// Whether the regex engine accepts `pat` as a well-formed pattern
/// (`regex::Regex::new` returns `Ok`).
pub uninterp spec fn regex_valid(pat: Seq<char>) -> bool;

/// The number of capture groups of a well-formed pattern, counting the
/// implicit whole-match group (`regex::Regex::captures_len`).
pub uninterp spec fn regex_groups(pat: Seq<char>) -> nat;

/// The capture groups of the leftmost match of `pat` in `input`, one entry
/// per group with the whole match first, `None` for a group that did not
/// participate; `None` overall when the pattern does not match
/// (`regex::Regex::captures`).
pub uninterp spec fn regex_found(pat: Seq<char>, input: Seq<char>) -> Option<
    Seq<Option<Seq<char>>>,
>;

/// Relies on `regex::Regex::new`, which succeeds exactly on the patterns the
/// engine accepts, and on `regex::Regex::captures_len`, the number of capture
/// groups counting the implicit whole-match group, hence at least one.
#[verifier::external_body]
pub(crate) fn regex_group_count(pat: &str) -> (r: Option<usize>)
    ensures
        r is Some <==> regex_valid(pat@),
        r matches Some(n) ==> n == regex_groups(pat@) && n >= 1,
{
    match regex::Regex::new(pat) {
        Ok(re) => Some(re.captures_len()),
        Err(_) => None,
    }
}

/// Relies on `regex::Regex::new` and `regex::Regex::captures`: the capture
/// groups of the leftmost match, one entry per group of the pattern with the
/// whole match first, `None` for a group that did not participate.
#[verifier::external_body]
pub(crate) fn regex_captures(pat: &str, input: &str) -> (r: Option<Vec<Option<String>>>)
    requires
        regex_valid(pat@),
    ensures
        r is Some <==> regex_found(pat@, input@) is Some,
        r matches Some(caps) ==> Some(caps.deep_view()) == regex_found(pat@, input@)
            && caps.len() == regex_groups(pat@),
{
    match regex::Regex::new(pat) {
        Ok(re) => re.captures(input).map(|caps| caps.iter().map(|g| g.map(|m| m.as_str().to_string())).collect()),
        Err(_) => None,
    }
}

} // verus!
