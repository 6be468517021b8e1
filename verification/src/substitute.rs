//! Token substitution: the texts that a regular expression captured take
//! the place of the positional tokens `${1}`, `${2}`, ... in the values of
//! an override record.

use vstd::prelude::*;
use crate::error::Failure;
use crate::metadata::{Metadata, MetadataView, NumberOrToken, NumberOrTokenView};
use crate::pattern::metadata_result_view;
use crate::regex_engine::groups_view;
use crate::text::{
    chars_of, clone_text, decimal_digits, lemma_replace_absent, occurs_at, parse_number,
    parse_unsigned, push_decimal, replace_all, replace_in, string_of, text_view,
};
use crate::token::Token;

verus! {

/// The positional token of the capture group `i`: `${`, the decimal numeral
/// of `i`, `}`.
pub open spec fn index_token(i: nat) -> Seq<char> {
    seq!['$', '{'] + decimal_digits(i) + seq!['}']
}

/// The text that a capture group stands for. A group that took no part in
/// the match stands for the empty text.
pub open spec fn group_text(group: Option<Seq<char>>) -> Seq<char> {
    match group {
        Some(t) => t,
        None => Seq::empty(),
    }
}

/// The text `s` after the tokens of the groups 1 to `n` were replaced, one
/// group after the other, each in what the one before left.
pub open spec fn substituted(s: Seq<char>, groups: Seq<Option<Seq<char>>>, n: nat) -> Seq<char>
    decreases n,
{
    if n == 0 {
        s
    } else {
        replace_all(
            substituted(s, groups, (n - 1) as nat),
            index_token(n),
            group_text(groups[n as int]),
        )
    }
}

/// The number of capture groups behind the whole match.
pub open spec fn group_count(groups: Seq<Option<Seq<char>>>) -> nat {
    if groups.len() > 0 {
        (groups.len() - 1) as nat
    } else {
        0
    }
}

/// The text `s` after the tokens of every group were replaced.
pub open spec fn substituted_all(s: Seq<char>, groups: Seq<Option<Seq<char>>>) -> Seq<char> {
    substituted(s, groups, group_count(groups))
}

/// A text field after substitution. A field without a value stays so.
pub open spec fn substituted_text(field: Option<Seq<char>>, groups: Seq<Option<Seq<char>>>)
    -> Option<Seq<char>> {
    match field {
        Some(s) => Some(substituted_all(s, groups)),
        None => None,
    }
}

/// A numeric field after substitution. A number stays as it is. A token
/// must have become a decimal numeral, with or without a leading `+`;
/// `field` names the field in the failure where it has not.
pub open spec fn resolved_number(
    value: Option<NumberOrTokenView>,
    groups: Seq<Option<Seq<char>>>,
    field: Token,
) -> Result<Option<NumberOrTokenView>, Failure> {
    match value {
        None => Ok(None),
        Some(NumberOrTokenView::Number(n)) => Ok(Some(NumberOrTokenView::Number(n))),
        Some(NumberOrTokenView::Token(s)) => match parse_unsigned(substituted_all(s, groups)) {
            Some(n) => Ok(Some(NumberOrTokenView::Number(n))),
            None => Err(Failure::FieldConversion(field)),
        },
    }
}

/// The record that the override `over` becomes when the captured texts
/// `groups` are substituted into it. Title, artist and album take the
/// texts; track number and year must come out as numbers, the track number
/// being looked at first; the album cover is not touched.
pub open spec fn substitution(over: MetadataView, groups: Seq<Option<Seq<char>>>) -> Result<
    MetadataView,
    Failure,
> {
    match resolved_number(over.track_number, groups, Token::Track) {
        Err(e) => Err(e),
        Ok(track_number) => match resolved_number(over.year, groups, Token::Year) {
            Err(e) => Err(e),
            Ok(year) => Ok(
                MetadataView {
                    title: substituted_text(over.title, groups),
                    artist: substituted_text(over.artist, groups),
                    album_title: substituted_text(over.album_title, groups),
                    album_cover: over.album_cover,
                    year,
                    track_number,
                },
            ),
        },
    }
}

/// Whether a numeric field comes out of substitution as a number: it has
/// no value, or a number already, or a token that has become a numeral.
pub open spec fn resolves(value: Option<NumberOrTokenView>, groups: Seq<Option<Seq<char>>>)
    -> bool {
    value matches Some(NumberOrTokenView::Token(s)) ==> parse_unsigned(substituted_all(s, groups))
        is Some
}

/// Substitution fails exactly when a numeric field does not come out as a
/// number, and then it names that field, the track number before the year.
/// Where it succeeds, no token is left in a numeric field.
pub proof fn lemma_substitution_accepted(over: MetadataView, groups: Seq<Option<Seq<char>>>)
    ensures
        substitution(over, groups) is Ok <==> resolves(over.track_number, groups) && resolves(
            over.year,
            groups,
        ),
        !resolves(over.track_number, groups) ==> substitution(over, groups) == Err::<
            MetadataView,
            Failure,
        >(Failure::FieldConversion(Token::Track)),
        resolves(over.track_number, groups) && !resolves(over.year, groups) ==> substitution(
            over,
            groups,
        ) == Err::<MetadataView, Failure>(Failure::FieldConversion(Token::Year)),
        substitution(over, groups) matches Ok(m) ==> !(m.year matches Some(
            NumberOrTokenView::Token(_),
        )) && !(m.track_number matches Some(NumberOrTokenView::Token(_))),
{
}

/// Text in which no positional token occurs comes out of substitution as
/// it went in.
pub proof fn lemma_substituted_without_tokens(s: Seq<char>, groups: Seq<Option<Seq<char>>>, n: nat)
    requires
        forall|i: nat, k: int| 1 <= i <= n ==> !#[trigger] occurs_at(s, index_token(i), k),
    ensures
        substituted(s, groups, n) == s,
    decreases n,
{
    if n > 0 {
        lemma_substituted_without_tokens(s, groups, (n - 1) as nat);
        lemma_replace_absent(s, index_token(n), group_text(groups[n as int]));
    }
}

/// The positional token of the capture group `i`.
pub fn index_token_chars(i: usize) -> (r: Vec<char>)
    ensures
        r@ == index_token(i as nat),
{
    let mut r: Vec<char> = Vec::new();
    r.push('$');
    r.push('{');
    push_decimal(i, &mut r);
    r.push('}');
    r
}

/// Replaces the positional tokens in `s` by the captured texts.
pub fn substitute_in(s: &str, groups: &Vec<Option<String>>) -> (r: String)
    ensures
        r@ == substituted_all(s@, groups_view(groups@)),
{
    let ghost views = groups_view(groups@);
    let mut current = chars_of(s);
    let mut i: usize = 1;
    while i < groups.len()
        invariant
            1 <= i,
            i <= groups.len() || (groups.len() == 0 && i == 1),
            views == groups_view(groups@),
            current@ == substituted(s@, views, (i - 1) as nat),
        decreases groups.len() - i,
    {
        let token = index_token_chars(i);
        let replacement = match &groups[i] {
            Some(g) => chars_of(g.as_str()),
            None => Vec::new(),
        };
        current = replace_in(&current, &token, &replacement);
        i += 1;
    }
    string_of(&current)
}

/// Replaces the positional tokens in a text field.
fn substitute_field(field: &Option<String>, groups: &Vec<Option<String>>) -> (r: Option<String>)
    ensures
        text_view(r) == substituted_text(text_view(*field), groups_view(groups@)),
{
    match field {
        Some(s) => Some(substitute_in(s.as_str(), groups)),
        None => None,
    }
}

/// The view of a resolved numeric field, or the failure.
pub open spec fn number_field_view(r: Result<Option<NumberOrToken>, Failure>) -> Result<
    Option<NumberOrTokenView>,
    Failure,
> {
    match r {
        Ok(v) => Ok(crate::metadata::number_view(v)),
        Err(e) => Err(e),
    }
}

/// Resolves a numeric field.
fn resolve_number(value: &Option<NumberOrToken>, groups: &Vec<Option<String>>, field: Token) -> (r:
    Result<Option<NumberOrToken>, Failure>)
    ensures
        number_field_view(r) == resolved_number(
            crate::metadata::number_view(*value),
            groups_view(groups@),
            field,
        ),
{
    match value {
        None => Ok(None),
        Some(NumberOrToken::Number(n)) => Ok(Some(NumberOrToken::Number(*n))),
        Some(NumberOrToken::Token(s)) => {
            let text = substitute_in(s.as_str(), groups);
            match parse_number(text.as_str()) {
                Some(n) => Ok(Some(NumberOrToken::Number(n))),
                None => Err(Failure::FieldConversion(field)),
            }
        },
    }
}

/// Substitutes the captured texts `groups` into the override `metadata`:
/// `groups[0]` is the whole match, `groups[i]` the text of the i-th capture
/// group. The result is final; it is not merged with the override again.
pub fn substitute_captures(groups: &Vec<Option<String>>, metadata: &Metadata) -> (r: Result<
    Metadata,
    Failure,
>)
    ensures
        metadata_result_view(r) == substitution(metadata@, groups_view(groups@)),
{
    let track_number = match resolve_number(&metadata.track_number, groups, Token::Track) {
        Ok(v) => v,
        Err(e) => {
            return Err(e);
        },
    };
    let year = match resolve_number(&metadata.year, groups, Token::Year) {
        Ok(v) => v,
        Err(e) => {
            return Err(e);
        },
    };
    Ok(
        Metadata {
            title: substitute_field(&metadata.title, groups),
            artist: substitute_field(&metadata.artist, groups),
            album_title: substitute_field(&metadata.album_title, groups),
            album_cover: clone_text(&metadata.album_cover),
            year,
            track_number,
        },
    )
}

} // verus!
