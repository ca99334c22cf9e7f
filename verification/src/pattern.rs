//! Regular expressions, as the regex crate matches them. Nothing here is
//! proved: what a pattern matches is named, not defined.

use regex::Regex;
use vstd::prelude::*;

verus! {

/// `Regex` of regex: a compiled pattern. What is inside is not looked at.
#[verifier::external_type_specification]
#[verifier::external_body]
pub struct ExRegex(Regex);

/// The text that a pattern was compiled from, with the default options.
pub uninterp spec fn pattern_text(pattern: Regex) -> Seq<char>;

/// Whether a text is a pattern that compiles within the default size limit.
pub uninterp spec fn compiles(pattern: Seq<char>) -> bool;

/// The capture groups of the leftmost match of a pattern in a text, or
/// `None` where the pattern matches nowhere. Group 0 is the whole match; a
/// group that took no part in the match is `None`.
pub uninterp spec fn leftmost_match(pattern: Seq<char>, text: Seq<char>) -> Option<
    Seq<Option<Seq<char>>>,
>;

/// The texts of a list of capture groups.
pub open spec fn group_texts(groups: Seq<Option<String>>) -> Seq<Option<Seq<char>>> {
    groups.map_values(
        |group: Option<String>|
            match group {
                Some(text) => Some(text@),
                None => None,
            },
    )
}

/// `Regex::new` of regex: the compiled pattern, which remembers its text,
/// or `None` where the text does not compile.
#[verifier::external_body]
pub(crate) fn compile(pattern: &str) -> (compiled: Option<Regex>)
    ensures
        compiled.is_some() == compiles(pattern@),
        compiled.is_some() ==> pattern_text(compiled.unwrap()) == pattern@,
{
    Regex::new(pattern).ok()
}

/// `Regex::captures` of regex, for a pattern that `compile` made: the
/// capture groups of the leftmost match in `text`, each as its own string.
#[verifier::external_body]
pub(crate) fn captures(pattern: &Regex, text: &str) -> (groups: Option<Vec<Option<String>>>)
    ensures
        groups.is_some() == leftmost_match(pattern_text(*pattern), text@).is_some(),
        groups.is_some() ==> group_texts(groups.unwrap()@) == leftmost_match(
            pattern_text(*pattern),
            text@,
        ).unwrap(),
{
    pattern.captures(text).map(
        |found| found.iter().map(|group| group.map(|part| part.as_str().to_owned())).collect(),
    )
}

} // verus!
