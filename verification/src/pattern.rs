//! Regular expressions, compiled and matched by the `regex` crate.

use vstd::prelude::*;

verus! {

#[verifier::external_type_specification]
#[verifier::external_body]
pub struct ExRegex(regex::Regex);

/// What the first capture group of the regular expression `pattern` holds at
/// the leftmost match in `text`: `None` where `pattern` matches nowhere,
/// `Some(None)` where it matches and the group takes no part in the match.
pub uninterp spec fn first_group(pattern: Seq<char>, text: Seq<char>) -> Option<Option<Seq<char>>>;

/// Whether the regular expression `pattern` matches somewhere in `text`.
pub uninterp spec fn matches_somewhere(pattern: Seq<char>, text: Seq<char>) -> bool;

/// A capture with its text as a sequence of characters.
pub open spec fn group_view(g: Option<Option<String>>) -> Option<Option<Seq<char>>> {
    match g {
        None => None,
        Some(None) => Some(None),
        Some(Some(s)) => Some(Some(s@)),
    }
}

/// A compiled regular expression, with the pattern it was compiled from; the
/// compiler alone makes one.
#[derive(Debug)]
pub struct Pattern {
    source: String,
    compiled: regex::Regex,
}

/// `regex::Regex::new` compiles `pattern`; the result is kept together with
/// the pattern. An error is the compiler's message for a pattern that it
/// refuses. Whether it refuses is left open: beside the pattern's syntax that
/// hangs on a limit on the size of the compiled program, which is counted in
/// bytes of the machine at hand.
#[verifier::external_body]
pub(crate) fn compile(pattern: &str) -> (r: Result<Pattern, String>)
    ensures
        match r {
            Ok(p) => p.source() == pattern@,
            Err(_) => true,
        },
{
    match regex::Regex::new(pattern) {
        Ok(re) => Ok(Pattern { source: pattern.to_string(), compiled: re }),
        Err(err) => Err(err.to_string()),
    }
}

/// `regex::Regex::captures` gives the leftmost match of the compiled pattern
/// in `text`; of that match `Captures::get(1)` gives the first group, whose
/// text `Match::as_str` gives.
#[verifier::external_body]
pub(crate) fn capture_first(pattern: &Pattern, text: &str) -> (r: Option<Option<String>>)
    ensures
        group_view(r) == first_group(pattern.source(), text@),
{
    pattern.compiled.captures(text).map(|caps| caps.get(1).map(|m| m.as_str().to_string()))
}

/// `regex::Regex::is_match` tells whether the compiled pattern matches
/// somewhere in `text`.
#[verifier::external_body]
pub(crate) fn is_match(pattern: &Pattern, text: &str) -> (r: bool)
    ensures
        r == matches_somewhere(pattern.source(), text@),
{
    pattern.compiled.is_match(text)
}

impl Pattern {
    /// The pattern that was compiled.
    pub closed spec fn source(&self) -> Seq<char> {
        self.source@
    }
}

} // verus!
