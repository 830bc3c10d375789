//! Regular expressions, as far as the filters use them. Compiling and
//! matching are left to the `regex` crate: what its functions return is named
//! here, and nothing in this crate proves anything about those names.

use regex::Regex;
use vstd::prelude::*;

verus! {

/// A compiled regular expression of the `regex` crate.
#[verifier::external_type_specification]
#[verifier::external_body]
pub struct ExRegex(regex::Regex);

/// The error with which the `regex` crate refuses a pattern.
#[verifier::external_type_specification]
#[verifier::external_body]
pub struct ExRegexError(regex::Error);

/// What `Regex::new` makes of a pattern: the compiled expression, or nothing
/// where the pattern is refused.
pub uninterp spec fn regex_compiled(pattern: Seq<char>) -> Option<Regex>;

/// What `Regex::is_match` answers: whether the expression matches anywhere in
/// the haystack.
pub uninterp spec fn regex_matches(re: Regex, haystack: Seq<char>) -> bool;

/// What `Regex::captures` finds: nothing where the expression does not match,
/// else the text of each capture group of the first match, group 0 being the
/// whole match, with nothing for a group that took no part.
pub uninterp spec fn regex_captures(re: Regex, haystack: Seq<char>) -> Option<
    Seq<Option<Seq<char>>>,
>;

/// `Regex::new` compiles a pattern or refuses it. Trusted: the outcome depends
/// on the pattern alone.
pub assume_specification[ Regex::new ](re: &str) -> (compiled: Result<Regex, regex::Error>)
    ensures
        match compiled {
            Ok(expression) => regex_compiled(re@) == Some(expression),
            Err(_) => regex_compiled(re@) is None,
        },
;

/// `Regex::is_match` searches the haystack for a match. Trusted: the answer
/// depends on the expression and the haystack alone.
pub assume_specification[ Regex::is_match ](re: &Regex, haystack: &str) -> (found: bool)
    ensures
        found == regex_matches(*re, haystack@),
;

/// Calls `Regex::captures` and copies the text of every group of the match
/// it returns. Trusted: the groups depend on the expression and the haystack
/// alone.
#[verifier::external_body]
pub(crate) fn capture_groups(re: &Regex, haystack: &str) -> (groups: Option<Vec<Option<String>>>)
    ensures
        groups.deep_view() == regex_captures(*re, haystack@),
{
    re.captures(haystack).map(
        |found| found.iter().map(|group| group.map(|m| m.as_str().to_owned())).collect(),
    )
}

} // verus!
