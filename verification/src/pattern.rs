//! Regular-expression matching, which the `regex` crate does.

use vstd::prelude::*;

verus! {

/// Whether `regex::Regex::new` accepts `pattern` as a regular expression.
pub uninterp spec fn regex_compiles(pattern: Seq<char>) -> bool;

/// What `regex::Regex::is_match` answers when the expression compiled from
/// `pattern` is asked about `text`: whether it matches anywhere in it.
pub uninterp spec fn regex_is_match(pattern: Seq<char>, text: Seq<char>) -> bool;

/// Compiles `pattern` with `regex::Regex::new` and asks the expression, with
/// `regex::Regex::is_match`, whether it matches in `text`. The answer is
/// `None` where the pattern does not compile. Nothing is proved of either:
/// the contract gives the two results their names.
#[verifier::external_body]
pub(crate) fn search(pattern: &str, text: &str) -> (found: Option<bool>)
    ensures
        found is Some <==> regex_compiles(pattern@),
        found matches Some(hit) ==> hit == regex_is_match(pattern@, text@),
{
    match regex::Regex::new(pattern) {
        Ok(expression) => Some(expression.is_match(text)),
        Err(_) => None,
    }
}

/// Whether `pattern` can be used for matching.
pub fn usable(pattern: &str) -> (ok: bool)
    ensures
        ok == regex_compiles(pattern@),
{
    search(pattern, "").is_some()
}

/// Whether `pattern` matches in `text`.
pub fn is_match(pattern: &str, text: &str) -> (hit: bool)
    requires
        regex_compiles(pattern@),
    ensures
        hit == regex_is_match(pattern@, text@),
{
    match search(pattern, text) {
        Some(hit) => hit,
        None => false,
    }
}

/// Whether `pattern` matches in `text`, or `None` where the pattern cannot
/// be used.
pub fn try_match(pattern: &str, text: &str) -> (found: Option<bool>)
    ensures
        found is Some <==> regex_compiles(pattern@),
        found matches Some(hit) ==> hit == regex_is_match(pattern@, text@),
{
    if usable(pattern) {
        Some(is_match(pattern, text))
    } else {
        None
    }
}

} // verus!
