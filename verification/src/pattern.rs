use crate::error::Error;
use crate::text::text_result_view;
use regex::Regex;
use vstd::prelude::*;

verus! {

/// Whether the pattern engine compiles `pattern`: whether `Regex::new`
/// returns `Ok` for it.
pub uninterp spec fn pattern_compiles(pattern: Seq<char>) -> bool;

/// What `Regex::replace_all` returns: `text` with each of the successive
/// matches of `pattern` replaced by `replacement`.
pub uninterp spec fn replaced_text(
    pattern: Seq<char>,
    text: Seq<char>,
    replacement: Seq<char>,
) -> Seq<char>;

/// What `Regex::captures` finds: nothing where `pattern` matches nowhere in
/// `text`, else what each capture group of the first match holds. Group 0 is
/// the whole match, and a group that took no part in the match holds
/// nothing.
pub uninterp spec fn first_captures(pattern: Seq<char>, text: Seq<char>) -> Option<
    Seq<Option<Seq<char>>>,
>;

/// What `Regex::captures_iter` yields: for each of the successive matches
/// of `pattern` in `text`, what each capture group holds, as in
/// `first_captures`.
pub uninterp spec fn all_captures(pattern: Seq<char>, text: Seq<char>) -> Seq<
    Seq<Option<Seq<char>>>,
>;

/// Calls `Regex::new` and says whether it accepted the pattern.
#[verifier::external_body]
fn compiles(pattern: &str) -> (r: bool)
    ensures
        r == pattern_compiles(pattern@),
{
    Regex::new(pattern).is_ok()
}

/// Calls `Regex::replace_all` on a pattern that compiles. Nothing is claimed
/// of the result but that it is the engine's.
#[verifier::external_body]
fn replace_all(pattern: &str, text: &str, replacement: &str) -> (r: String)
    requires
        pattern_compiles(pattern@),
    ensures
        r@ == replaced_text(pattern@, text@, replacement@),
{
    let re = Regex::new(pattern).unwrap();
    re.replace_all(text, replacement).into_owned()
}

/// Calls `Regex::captures` on a pattern that compiles and copies out what
/// `Captures::iter` yields for the match: one entry for each group of the
/// pattern, the whole match first.
#[verifier::external_body]
fn captures(pattern: &str, text: &str) -> (r: Option<Vec<Option<String>>>)
    requires
        pattern_compiles(pattern@),
    ensures
        r.deep_view() == first_captures(pattern@, text@),
{
    let re = Regex::new(pattern).unwrap();
    re.captures(text).map(|c| c.iter().map(|g| g.map(|m| m.as_str().to_string())).collect())
}

/// Calls `Regex::captures_iter` on a pattern that compiles and copies out,
/// match by match, what `Captures::iter` yields.
#[verifier::external_body]
fn captures_iter(pattern: &str, text: &str) -> (r: Vec<Vec<Option<String>>>)
    requires
        pattern_compiles(pattern@),
    ensures
        r.deep_view() == all_captures(pattern@, text@),
{
    let re = Regex::new(pattern).unwrap();
    re.captures_iter(text).map(
        |c| c.iter().map(|g| g.map(|m| m.as_str().to_string())).collect(),
    ).collect()
}

/// The text with its matches replaced, where the engine takes the pattern.
pub open spec fn replaced(pattern: Seq<char>, text: Seq<char>, replacement: Seq<char>) -> Result<
    Seq<char>,
    Error,
> {
    if pattern_compiles(pattern) {
        Ok(replaced_text(pattern, text, replacement))
    } else {
        Err(Error::PatternRejected)
    }
}

/// The groups of the first match, if there is a match, where the engine
/// takes the pattern.
pub open spec fn first_match(pattern: Seq<char>, text: Seq<char>) -> Result<
    Option<Seq<Option<Seq<char>>>>,
    Error,
> {
    if pattern_compiles(pattern) {
        Ok(first_captures(pattern, text))
    } else {
        Err(Error::PatternRejected)
    }
}

/// The groups of every match, where the engine takes the pattern.
pub open spec fn all_matches(pattern: Seq<char>, text: Seq<char>) -> Result<
    Seq<Seq<Option<Seq<char>>>>,
    Error,
> {
    if pattern_compiles(pattern) {
        Ok(all_captures(pattern, text))
    } else {
        Err(Error::PatternRejected)
    }
}

/// Replaces every match of `pattern` in `text` by `replacement`. A pattern
/// that the engine refuses is an error.
pub fn replace_matches(pattern: &str, text: &str, replacement: &str) -> (r: Result<String, Error>)
    ensures
        text_result_view(r) == replaced(pattern@, text@, replacement@),
{
    if compiles(pattern) {
        Ok(replace_all(pattern, text, replacement))
    } else {
        Err(Error::PatternRejected)
    }
}

/// Finds the first match of `pattern` in `text` and hands out what each of
/// its groups holds. A pattern that the engine refuses is an error.
pub fn find_first(pattern: &str, text: &str) -> (r: Result<Option<Vec<Option<String>>>, Error>)
    ensures
        (match r {
            Ok(found) => Ok(found.deep_view()),
            Err(e) => Err(e),
        }) == first_match(pattern@, text@),
{
    if compiles(pattern) {
        Ok(captures(pattern, text))
    } else {
        Err(Error::PatternRejected)
    }
}

/// Finds the successive matches of `pattern` in `text` and hands out what
/// each group of each match holds. A pattern that the engine refuses is an
/// error.
pub fn find_all(pattern: &str, text: &str) -> (r: Result<Vec<Vec<Option<String>>>, Error>)
    ensures
        (match r {
            Ok(found) => Ok(found.deep_view()),
            Err(e) => Err(e),
        }) == all_matches(pattern@, text@),
{
    if compiles(pattern) {
        Ok(captures_iter(pattern, text))
    } else {
        Err(Error::PatternRejected)
    }
}

} // verus!
