//! Regular expressions, as far as the engines use them: removing every match
//! of a pattern from a text. Matching is done by the `regex` crate.

use vstd::prelude::*;

verus! {

/// A compiled regular expression (`regex::Regex`).
#[verifier::external_type_specification]
#[verifier::external_body]
pub struct ExRegex(regex::Regex);

/// The pattern that an expression was compiled from.
pub uninterp spec fn pattern_text(expression: regex::Regex) -> Seq<char>;

/// Whether `regex::Regex::new` accepts the pattern.
pub uninterp spec fn pattern_compiles(pattern: Seq<char>) -> bool;

/// The text with every non-overlapping match of the pattern removed, as
/// `regex::Regex::replace_all` with an empty replacement returns it.
pub uninterp spec fn without_matches(pattern: Seq<char>, text: Seq<char>) -> Seq<char>;

/// Compiles a pattern with `regex::Regex::new`; `None` where the pattern is
/// rejected. The expression remembers the pattern it came from.
#[verifier::external_body]
pub(crate) fn compile(pattern: &str) -> (expression: Option<regex::Regex>)
    ensures
        expression is Some == pattern_compiles(pattern@),
        expression is Some ==> pattern_text(expression->0) == pattern@,
{
    regex::Regex::new(pattern).ok()
}

/// Removes every match with `regex::Regex::replace_all` and an empty
/// replacement.
#[verifier::external_body]
pub(crate) fn remove_matches(expression: &regex::Regex, text: &str) -> (out: String)
    ensures
        out@ == without_matches(pattern_text(*expression), text@),
{
    expression.replace_all(text, "").into_owned()
}

} // verus!
