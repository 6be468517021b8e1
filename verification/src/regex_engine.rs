//! The boundary to the `regex` crate. Nothing in this file is proved: each
//! contract states what the crate's documentation and source say of the
//! function it stands for.

use vstd::prelude::*;
use crate::text::text_view;

verus! {

/// The error that `regex::Regex::new` reports for an expression that it
/// cannot compile.
#[verifier::external_type_specification]
#[verifier::external_body]
pub struct ExRegexError(regex::Error);

/// The characters that have a meaning of their own in a regular expression.
pub open spec fn is_meta_character(c: char) -> bool {
    c == '\\' || c == '.' || c == '+' || c == '*' || c == '?' || c == '(' || c == ')' || c == '|'
        || c == '[' || c == ']' || c == '{' || c == '}' || c == '^' || c == '$' || c == '#' || c
        == '&' || c == '-' || c == '~'
}

/// `text` with a backslash put in front of each meta character.
pub open spec fn escaped(text: Seq<char>) -> Seq<char>
    decreases text.len(),
{
    if text.len() == 0 {
        Seq::empty()
    } else if is_meta_character(text.last()) {
        escaped(text.drop_last()).push('\\').push(text.last())
    } else {
        escaped(text.drop_last()).push(text.last())
    }
}

/// `regex::escape` copies its argument character by character and puts a
/// backslash in front of each character that `regex_syntax` lists as a meta
/// character.
pub assume_specification[ regex::escape ](pattern: &str) -> (r: String)
    ensures
        r@ == escaped(pattern@),
;

/// What matching a text against a regular expression comes to.
pub enum RegexOutcome {
    /// The expression does not compile.
    Invalid,
    /// The expression compiles and does not match the text.
    NoMatch,
    /// The expression matches. The sequence holds one entry for each capture
    /// group, in the order of the opening parentheses, after the entry for
    /// the whole match; an entry is `None` where the group took no part in
    /// the match.
    Match(Seq<Option<Seq<char>>>),
}

/// The outcome of compiling `pattern` with `regex::Regex::new` and
/// searching `text` with `regex::Regex::captures`.
pub uninterp spec fn regex_outcome(pattern: Seq<char>, text: Seq<char>) -> RegexOutcome;

/// The views of captured texts.
pub open spec fn groups_view(groups: Seq<Option<String>>) -> Seq<Option<Seq<char>>> {
    groups.map_values(|g: Option<String>| text_view(g))
}

/// What the result of `captures` stands for.
pub open spec fn outcome_of(
    r: Result<Option<Vec<Option<String>>>, regex::Error>,
) -> RegexOutcome {
    match r {
        Err(_) => RegexOutcome::Invalid,
        Ok(None) => RegexOutcome::NoMatch,
        Ok(Some(groups)) => RegexOutcome::Match(groups_view(groups@)),
    }
}

/// Compiles `pattern` with `regex::Regex::new` and searches `text` for its
/// leftmost match with `regex::Regex::captures`. The result depends on the
/// two texts alone: the error of `new` where the expression does not
/// compile; `None` where it finds no match; else the text of each capture
/// group as `regex::Captures::iter` yields them, the whole match first.
#[verifier::external_body]
pub(crate) fn captures(pattern: &str, text: &str) -> (r: Result<
    Option<Vec<Option<String>>>,
    regex::Error,
>)
    ensures
        outcome_of(r) == regex_outcome(pattern@, text@),
{
    let re = regex::Regex::new(pattern)?;
    Ok(
        re.captures(text).map(
            |found| found.iter().map(|group| group.map(|m| m.as_str().to_string())).collect(),
        ),
    )
}

} // verus!
