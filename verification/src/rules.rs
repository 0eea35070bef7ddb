//! The regular expressions behind the exclusion rules: what this crate
//! takes on trust from the `regex` crate.

use regex::RegexSet;
use vstd::prelude::*;

verus! {

/// The set of compiled exclusion rules, `regex::RegexSet`.
#[verifier::external_type_specification]
#[verifier::external_body]
pub struct ExRegexSet(regex::RegexSet);

/// The patterns that a rule set matches by, in order. For a set compiled
/// with the default options these are the patterns it was given; options
/// that change how a set matches count as part of its patterns.
pub uninterp spec fn pattern_sources(set: RegexSet) -> Seq<Seq<char>>;

/// Whether at least one of the regular expressions `patterns` matches
/// somewhere in `text`.
pub uninterp spec fn any_pattern_matches(patterns: Seq<Seq<char>>, text: Seq<char>) -> bool;

/// What the capture group named `group` holds in the leftmost match of the
/// regular expression `pattern` in `text`; `None` if the pattern does not
/// compile or does not match, or if no group of that name took part in the
/// match.
pub uninterp spec fn first_capture(pattern: Seq<char>, group: Seq<char>, text: Seq<char>) -> Option<
    Seq<char>,
>;

/// The view of an optional string slice.
pub open spec fn slice_text(text: Option<&str>) -> Option<Seq<char>> {
    match text {
        Some(text) => Some(text@),
        None => None,
    }
}

/// Finds what a named capture group of a pattern holds in a text.
///
/// Trusted: `regex::Regex::new` compiles the pattern, `Regex::captures`
/// finds the leftmost match, `Captures::name` picks the group and
/// `Match::as_str` gives its text, which is a part of `text`.
#[verifier::external_body]
pub(crate) fn capture<'a>(pattern: &str, group: &str, text: &'a str) -> (found: Option<&'a str>)
    ensures
        slice_text(found) == first_capture(pattern@, group@, text@),
{
    let compiled = regex::Regex::new(pattern).ok()?;
    let captures = compiled.captures(text)?;
    captures.name(group).map(|found| found.as_str())
}

/// Trusted: the derived `Clone` of `regex::RegexSet`, which copies the set
/// with the patterns it was compiled from.
pub assume_specification[ <regex::RegexSet as std::clone::Clone>::clone ](
    set: &regex::RegexSet,
) -> (copy: regex::RegexSet)
    ensures
        pattern_sources(copy) == pattern_sources(*set),
;

/// Compiles exclusion rules.
///
/// Trusted: `regex::RegexSet::new`, with `None` for its error. It compiles
/// with the default options, so a set that is returned matches by the
/// patterns it was given, in their order; and the empty list always
/// compiles, as `RegexSet::empty` relies on. Whether a non-empty list
/// compiles is left open.
#[verifier::external_body]
pub(crate) fn compile_rules(patterns: &Vec<String>) -> (compiled: Option<RegexSet>)
    ensures
        compiled matches Some(set) ==> pattern_sources(set) == patterns.deep_view(),
        patterns.len() == 0 ==> compiled is Some,
{
    RegexSet::new(patterns).ok()
}

/// Tests a text against exclusion rules.
///
/// Trusted: `regex::RegexSet::is_match`, which returns true if and only if
/// one of the set's regular expressions matches the text; an empty set
/// matches nothing.
#[verifier::external_body]
pub(crate) fn rules_match(set: &RegexSet, text: &str) -> (matched: bool)
    ensures
        matched == any_pattern_matches(pattern_sources(*set), text@),
        pattern_sources(*set).len() == 0 ==> !matched,
{
    set.is_match(text)
}

} // verus!
