//! The metadata record, and how an override is merged into it.

use vstd::prelude::*;
use vstd::string::StringExecFns;
use crate::error::Failure;
use crate::text::{
    all_digits, chars_of, clone_text, is_digit, parse_digits, parse_number, parse_unsigned,
    text_view,
};

verus! {

/// A numeric field: a number, or text that still has to become one.
#[derive(Clone, Debug, PartialEq, Eq)]
pub enum NumberOrToken {
    Number(u32),
    Token(String),
}

/// What a `NumberOrToken` holds.
pub enum NumberOrTokenView {
    Number(u32),
    Token(Seq<char>),
}

impl View for NumberOrToken {
    type V = NumberOrTokenView;

    open spec fn view(&self) -> NumberOrTokenView {
        match self {
            NumberOrToken::Number(n) => NumberOrTokenView::Number(*n),
            NumberOrToken::Token(s) => NumberOrTokenView::Token(s@),
        }
    }
}

/// The view of an optional numeric field.
pub open spec fn number_view(v: Option<NumberOrToken>) -> Option<NumberOrTokenView> {
    match v {
        Some(n) => Some(n@),
        None => None,
    }
}

/// `char::is_numeric`: whether the character belongs to one of Unicode's
/// number categories.
pub uninterp spec fn is_numeric_char(c: char) -> bool;

/// `char::is_numeric` tells whether a character is in one of the general
/// categories Nd, Nl or No of the Unicode character database. Of the ASCII
/// characters those are the ten digits.
pub assume_specification[ char::is_numeric ](c: char) -> (b: bool)
    ensures
        b == is_numeric_char(c),
        (c as u32) < 128 ==> (b <==> is_digit(c)),
;

/// Every character of `s` is numeric.
pub open spec fn all_numeric(s: Seq<char>) -> bool {
    forall|i: int| 0 <= i < s.len() ==> is_numeric_char(#[trigger] s[i])
}

/// Every character of `s` is an ASCII character.
pub open spec fn all_ascii(s: Seq<char>) -> bool {
    forall|i: int| 0 <= i < s.len() ==> (#[trigger] s[i] as u32) < 128
}

/// How text given for a numeric field is read: text of numeric characters
/// only must be a number; any other text is kept as a token.
pub open spec fn number_or_token(s: Seq<char>) -> Result<NumberOrTokenView, Failure> {
    if all_numeric(s) {
        match parse_unsigned(s) {
            Some(n) => Ok(NumberOrTokenView::Number(n)),
            None => Err(Failure::InvalidNumber),
        }
    } else {
        Ok(NumberOrTokenView::Token(s))
    }
}

/// `number_or_token` on ASCII text, where the numeric characters are the
/// digits.
pub open spec fn number_or_token_ascii(s: Seq<char>) -> Result<NumberOrTokenView, Failure> {
    if all_digits(s) {
        match parse_digits(s) {
            Some(n) => Ok(NumberOrTokenView::Number(n)),
            None => Err(Failure::InvalidNumber),
        }
    } else {
        Ok(NumberOrTokenView::Token(s))
    }
}

/// The view of the outcome of reading a numeric field.
pub open spec fn number_result_view(r: Result<NumberOrToken, Failure>) -> Result<
    NumberOrTokenView,
    Failure,
> {
    match r {
        Ok(n) => Ok(n@),
        Err(e) => Err(e),
    }
}

impl NumberOrToken {
    /// Reads the text given for a numeric field. Text made of numeric
    /// characters only is read as a number, and refused when it is none
    /// that fits; any other text is kept as it stands, to be resolved
    /// later.
    pub fn from_str(string: &str) -> (r: Result<NumberOrToken, Failure>)
        ensures
            number_result_view(r) == number_or_token(string@),
            all_ascii(string@) ==> number_result_view(r) == number_or_token_ascii(string@),
    {
        let v = chars_of(string);
        let mut i: usize = 0;
        while i < v.len()
            invariant
                i <= v.len(),
                v@ == string@,
                forall|j: int| 0 <= j < i ==> is_numeric_char(#[trigger] v@[j]),
                forall|j: int| 0 <= j < i && (v@[j] as u32) < 128 ==> is_digit(#[trigger] v@[j]),
            decreases v.len() - i,
        {
            if !v[i].is_numeric() {
                return Ok(NumberOrToken::Token(String::from_str(string)));
            }
            i += 1;
        }
        match parse_number(string) {
            Some(n) => Ok(NumberOrToken::Number(n)),
            None => Err(Failure::InvalidNumber),
        }
    }

    /// An owned copy.
    pub fn duplicate(&self) -> (r: NumberOrToken)
        ensures
            r@ == self@,
    {
        match self {
            NumberOrToken::Number(n) => NumberOrToken::Number(*n),
            NumberOrToken::Token(s) => NumberOrToken::Token(s.clone()),
        }
    }
}

/// An owned copy of an optional numeric field.
pub fn clone_number(v: &Option<NumberOrToken>) -> (r: Option<NumberOrToken>)
    ensures
        number_view(r) == number_view(*v),
{
    match v {
        Some(n) => Some(n.duplicate()),
        None => None,
    }
}

/// The values to write to a file's tags. A field that is `None` is left as
/// the file has it.
#[derive(Clone, Debug, PartialEq, Eq)]
pub struct Metadata {
    pub title: Option<String>,
    pub artist: Option<String>,
    pub album_title: Option<String>,
    /// The path of the image to set as album cover.
    pub album_cover: Option<String>,
    pub year: Option<NumberOrToken>,
    pub track_number: Option<NumberOrToken>,
}

/// What a `Metadata` holds.
pub struct MetadataView {
    pub title: Option<Seq<char>>,
    pub artist: Option<Seq<char>>,
    pub album_title: Option<Seq<char>>,
    pub album_cover: Option<Seq<char>>,
    pub year: Option<NumberOrTokenView>,
    pub track_number: Option<NumberOrTokenView>,
}

impl View for Metadata {
    type V = MetadataView;

    open spec fn view(&self) -> MetadataView {
        MetadataView {
            title: text_view(self.title),
            artist: text_view(self.artist),
            album_title: text_view(self.album_title),
            album_cover: text_view(self.album_cover),
            year: number_view(self.year),
            track_number: number_view(self.track_number),
        }
    }
}

impl MetadataView {
    /// The record without any value.
    pub open spec fn empty() -> MetadataView {
        MetadataView {
            title: None,
            artist: None,
            album_title: None,
            album_cover: None,
            year: None,
            track_number: None,
        }
    }

    /// This record with each field replaced by that of `over` where `over`
    /// has one.
    pub open spec fn merged(self, over: MetadataView) -> MetadataView {
        MetadataView {
            title: if over.title is Some { over.title } else { self.title },
            artist: if over.artist is Some { over.artist } else { self.artist },
            album_title: if over.album_title is Some {
                over.album_title
            } else {
                self.album_title
            },
            album_cover: if over.album_cover is Some {
                over.album_cover
            } else {
                self.album_cover
            },
            year: if over.year is Some { over.year } else { self.year },
            track_number: if over.track_number is Some {
                over.track_number
            } else {
                self.track_number
            },
        }
    }
}

impl Default for Metadata {
    fn default() -> (m: Metadata)
        ensures
            m@ == MetadataView::empty(),
    {
        Metadata {
            title: None,
            artist: None,
            album_title: None,
            album_cover: None,
            year: None,
            track_number: None,
        }
    }
}

impl Metadata {
    /// An owned copy.
    pub fn duplicate(&self) -> (m: Metadata)
        ensures
            m@ == self@,
    {
        Metadata {
            title: clone_text(&self.title),
            artist: clone_text(&self.artist),
            album_title: clone_text(&self.album_title),
            album_cover: clone_text(&self.album_cover),
            year: clone_number(&self.year),
            track_number: clone_number(&self.track_number),
        }
    }

    /// Merges the override `metadata` into this record: each field takes
    /// the override's value where the override has one, and stays as it is
    /// where it has none.
    pub fn update(&mut self, metadata: &Metadata)
        ensures
            final(self)@ == old(self)@.merged(metadata@),
    {
        if metadata.artist.is_some() {
            self.artist = clone_text(&metadata.artist);
        }
        if metadata.title.is_some() {
            self.title = clone_text(&metadata.title);
        }
        if metadata.album_cover.is_some() {
            self.album_cover = clone_text(&metadata.album_cover);
        }
        if metadata.album_title.is_some() {
            self.album_title = clone_text(&metadata.album_title);
        }
        if metadata.year.is_some() {
            self.year = clone_number(&metadata.year);
        }
        if metadata.track_number.is_some() {
            self.track_number = clone_number(&metadata.track_number);
        }
    }
}

/// Merging an override without any value changes nothing.
pub proof fn lemma_merge_empty(base: MetadataView)
    ensures
        base.merged(MetadataView::empty()) == base,
{
}

/// Merging into a record without any value gives the override.
pub proof fn lemma_merge_into_empty(over: MetadataView)
    ensures
        MetadataView::empty().merged(over) == over,
{
}

/// Merging the same override a second time changes nothing more.
pub proof fn lemma_merge_idempotent(base: MetadataView, over: MetadataView)
    ensures
        base.merged(over).merged(over) == base.merged(over),
{
}

} // verus!
