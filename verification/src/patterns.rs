//! Compiled regular expressions and what this library relies on of them.

use vstd::prelude::*;

verus! {

#[verifier::external_type_specification]
#[verifier::external_body]
pub struct ExRegex(regex::Regex);

#[verifier::external_type_specification]
#[verifier::external_body]
pub struct ExRegexError(regex::Error);

/// Whether `Regex::new` accepts the pattern: it rejects invalid syntax and
/// patterns whose compiled form exceeds the default size limit.
pub uninterp spec fn regex_compiles(pattern: Seq<char>) -> bool;

/// The text of the leftmost-first match of `pattern` in `haystack`, if any.
pub uninterp spec fn regex_first_match(pattern: Seq<char>, haystack: Seq<char>) -> Option<Seq<char>>;

/// The number of successive non-overlapping matches of `pattern` in `haystack`.
pub uninterp spec fn regex_match_count(pattern: Seq<char>, haystack: Seq<char>) -> nat;

/// A regular expression together with the pattern text it was compiled from.
pub struct Pattern {
    re: regex::Regex,
    source: Ghost<Seq<char>>,
}

impl View for Pattern {
    type V = Seq<char>;

    /// The pattern text the expression was compiled from.
    closed spec fn view(&self) -> Seq<char> {
        self.source@
    }
}

/// Calls `regex::Regex::new`. Claimed: it succeeds exactly when
/// `regex_compiles` holds of the pattern text, and the compiled expression
/// remembers that text.
#[verifier::external_body]
pub(crate) fn compile(pattern: &str) -> (res: Result<Pattern, regex::Error>)
    ensures
        res is Ok <==> regex_compiles(pattern@),
        res matches Ok(p) ==> p@ == pattern@,
{
    match regex::Regex::new(pattern) {
        Ok(re) => Ok(Pattern { re, source: Ghost(pattern@) }),
        Err(e) => Err(e),
    }
}

/// Calls `regex::Regex::find` and returns the matched text. Claimed: the
/// result is `regex_first_match` of the pattern text and the haystack.
#[verifier::external_body]
pub(crate) fn find(p: &Pattern, haystack: &str) -> (res: Option<String>)
    ensures
        res matches Some(m) ==> regex_first_match(p@, haystack@) == Some(m@),
        res is None <==> regex_first_match(p@, haystack@) is None,
{
    p.re.find(haystack).map(|m| m.as_str().to_string())
}

/// Calls `regex::Regex::is_match`. Claimed, as its documentation says: true
/// exactly when the expression matches somewhere in the haystack, that is
/// when `find` would find a match.
#[verifier::external_body]
pub(crate) fn is_match(p: &Pattern, haystack: &str) -> (res: bool)
    ensures
        res == regex_first_match(p@, haystack@) is Some,
{
    p.re.is_match(haystack)
}

/// Calls `regex::Regex::find_iter` and counts the matches. Claimed: the count
/// is `regex_match_count`, and it is positive exactly when there is a first
/// match.
#[verifier::external_body]
pub(crate) fn count_matches(p: &Pattern, haystack: &str) -> (res: usize)
    ensures
        res as nat == regex_match_count(p@, haystack@),
        (res > 0) == (regex_first_match(p@, haystack@) is Some),
{
    p.re.find_iter(haystack).count()
}

/// Calls `regex::Regex::as_str`, which returns the original pattern text.
#[verifier::external_body]
pub(crate) fn source_text(p: &Pattern) -> (res: String)
    ensures
        res@ == p@,
{
    p.re.as_str().to_string()
}

} // verus!
