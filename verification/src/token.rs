//! The five metadata fields that a filename can give, each with its
//! placeholder spelling and the kind of text it captures.

use vstd::prelude::*;
use vstd::string::StringExecFns;
use crate::error::Failure;
use crate::metadata::{Metadata, MetadataView, NumberOrToken, NumberOrTokenView};
use crate::text::{chars_of, decimal_digits, parse_digits, parse_number_strict};

verus! {

/// A metadata field that a template can name.
#[derive(Clone, Copy, Debug, PartialEq, Eq, Structural)]
pub enum Token {
    Artist,
    Title,
    Album,
    Year,
    Track,
}

/// What a field's captured text may consist of.
#[derive(Clone, Copy, Debug, PartialEq, Eq, Structural)]
pub enum ValueKind {
    /// Any text, taken as it stands.
    FreeText,
    /// ASCII digits only, read as a number.
    Digits,
}

/// A value that a field can hold: text in a text field, a number in a
/// numeric one.
pub enum FieldValue {
    Text(Seq<char>),
    Number(u32),
}

impl FieldValue {
    /// The value as it is written in a filename: text as it stands, a
    /// number as its decimal numeral.
    pub open spec fn written(self) -> Seq<char> {
        match self {
            FieldValue::Text(t) => t,
            FieldValue::Number(n) => decimal_digits(n as nat),
        }
    }
}

impl Token {
    /// The letter between the braces of this field's placeholder.
    pub open spec fn letter(self) -> char {
        match self {
            Token::Artist => 'a',
            Token::Title => 't',
            Token::Album => 'm',
            Token::Year => 'y',
            Token::Track => 'd',
        }
    }

    /// The field whose placeholder holds the letter `c`, if there is one.
    pub open spec fn of_letter(c: char) -> Option<Token> {
        if c == 'a' {
            Some(Token::Artist)
        } else if c == 't' {
            Some(Token::Title)
        } else if c == 'm' {
            Some(Token::Album)
        } else if c == 'y' {
            Some(Token::Year)
        } else if c == 'd' {
            Some(Token::Track)
        } else {
            None
        }
    }

    /// This field's placeholder as it is written in a template.
    pub open spec fn spelling(self) -> Seq<char> {
        seq!['{', self.letter(), '}']
    }

    /// The field that `s` is the placeholder of, if it is one.
    pub open spec fn spelled(s: Seq<char>) -> Option<Token> {
        if s.len() == 3 && s[0] == '{' && s[2] == '}' {
            Token::of_letter(s[1])
        } else {
            None
        }
    }

    /// The kind of text this field holds.
    pub open spec fn kind(self) -> ValueKind {
        match self {
            Token::Artist | Token::Title | Token::Album => ValueKind::FreeText,
            Token::Year | Token::Track => ValueKind::Digits,
        }
    }

    /// The capture group that stands for this field in a matching
    /// expression: as few characters as possible, but at least one, for
    /// free text; one or more ASCII digits for a number.
    pub open spec fn regex_repr(self) -> Seq<char> {
        match self.kind() {
            ValueKind::FreeText => "(.+?)"@,
            ValueKind::Digits => "([0-9]+)"@,
        }
    }

    /// The record `m` after `value` was assigned to this field: free text
    /// as it stands, a numeric field as the number that `value` denotes in
    /// strict decimal notation. Text that is no such number is refused.
    pub open spec fn applied(self, value: Seq<char>, m: MetadataView) -> Result<
        MetadataView,
        Failure,
    > {
        match self {
            Token::Artist => Ok(MetadataView { artist: Some(value), ..m }),
            Token::Title => Ok(MetadataView { title: Some(value), ..m }),
            Token::Album => Ok(MetadataView { album_title: Some(value), ..m }),
            Token::Year => match parse_digits(value) {
                Some(n) => Ok(MetadataView { year: Some(NumberOrTokenView::Number(n)), ..m }),
                None => Err(Failure::FieldConversion(Token::Year)),
            },
            Token::Track => match parse_digits(value) {
                Some(n) => Ok(
                    MetadataView { track_number: Some(NumberOrTokenView::Number(n)), ..m },
                ),
                None => Err(Failure::FieldConversion(Token::Track)),
            },
        }
    }

    /// The record `m` holds `value` in this field: as it stands in a text
    /// field, as the number that it denotes in a numeric field.
    pub open spec fn holds(self, m: MetadataView, value: Seq<char>) -> bool {
        match self {
            Token::Artist => m.artist == Some(value),
            Token::Title => m.title == Some(value),
            Token::Album => m.album_title == Some(value),
            Token::Year => parse_digits(value) matches Some(n) && m.year == Some(
                NumberOrTokenView::Number(n),
            ),
            Token::Track => parse_digits(value) matches Some(n) && m.track_number == Some(
                NumberOrTokenView::Number(n),
            ),
        }
    }

    /// The value is of the kind that this field holds.
    pub open spec fn takes(self, v: FieldValue) -> bool {
        match self.kind() {
            ValueKind::FreeText => v is Text,
            ValueKind::Digits => v is Number,
        }
    }

    /// The record `m` has the value `v` in this field.
    pub open spec fn has(self, m: MetadataView, v: FieldValue) -> bool {
        match (self, v) {
            (Token::Artist, FieldValue::Text(t)) => m.artist == Some(t),
            (Token::Title, FieldValue::Text(t)) => m.title == Some(t),
            (Token::Album, FieldValue::Text(t)) => m.album_title == Some(t),
            (Token::Year, FieldValue::Number(n)) => m.year == Some(NumberOrTokenView::Number(n)),
            (Token::Track, FieldValue::Number(n)) => m.track_number == Some(
                NumberOrTokenView::Number(n),
            ),
            _ => false,
        }
    }

    /// The records `a` and `b` have the same in this field.
    pub open spec fn same_in(self, a: MetadataView, b: MetadataView) -> bool {
        match self {
            Token::Artist => a.artist == b.artist,
            Token::Title => a.title == b.title,
            Token::Album => a.album_title == b.album_title,
            Token::Year => a.year == b.year,
            Token::Track => a.track_number == b.track_number,
        }
    }

    /// The kind of text this field holds.
    pub fn value_kind(&self) -> (k: ValueKind)
        ensures
            k == self.kind(),
    {
        match self {
            Token::Artist | Token::Title | Token::Album => ValueKind::FreeText,
            Token::Year | Token::Track => ValueKind::Digits,
        }
    }

    /// Reads a placeholder: exactly one of `{a}`, `{t}`, `{m}`, `{y}`, `{d}`.
    pub fn from_str(string: &str) -> (r: Result<Token, Failure>)
        ensures
            r == match Token::spelled(string@) {
                Some(t) => Ok::<Token, Failure>(t),
                None => Err(Failure::UnknownToken),
            },
    {
        let v = chars_of(string);
        match Token::at(&v, 0) {
            Some(t) => if v.len() == 3 {
                Ok(t)
            } else {
                Err(Failure::UnknownToken)
            },
            None => {
                Err(Failure::UnknownToken)
            },
        }
    }

    /// The field whose placeholder stands in `v` at position `i`.
    pub fn at(v: &Vec<char>, i: usize) -> (r: Option<Token>)
        ensures
            r == placeholder_at(v@, i as int),
    {
        if i > v.len() || v.len() - i < 3 {
            return None;
        }
        if v[i] != '{' || v[i + 2] != '}' {
            return None;
        }
        let c = v[i + 1];
        if c == 'a' {
            Some(Token::Artist)
        } else if c == 't' {
            Some(Token::Title)
        } else if c == 'm' {
            Some(Token::Album)
        } else if c == 'y' {
            Some(Token::Year)
        } else if c == 'd' {
            Some(Token::Track)
        } else {
            None
        }
    }

    /// The capture group that stands for this field in a matching
    /// expression.
    pub fn token_to_regex_repr(&self) -> (r: String)
        ensures
            r@ == self.regex_repr(),
    {
        let regex_text = "(.+?)";
        let regex_num = "([0-9]+)";
        let regex_repr = match self {
            Token::Artist | Token::Title | Token::Album => regex_text,
            Token::Year | Token::Track => regex_num,
        };
        String::from_str(regex_repr)
    }

    /// Assigns `value` to this field of `metadata`. A numeric field takes
    /// the number that `value` denotes; where `value` is not a number the
    /// record stays as it was and the error names the field.
    pub fn apply_token(&self, value: &str, metadata: &mut Metadata) -> (r: Result<(), Failure>)
        ensures
            match self.applied(value@, old(metadata)@) {
                Ok(m) => r is Ok && final(metadata)@ == m,
                Err(e) => r == Err::<(), Failure>(e) && final(metadata)@ == old(metadata)@,
            },
    {
        match self {
            Token::Artist => {
                metadata.artist = Some(String::from_str(value));
            },
            Token::Title => {
                metadata.title = Some(String::from_str(value));
            },
            Token::Album => {
                metadata.album_title = Some(String::from_str(value));
            },
            Token::Year => match parse_number_strict(value) {
                Some(n) => {
                    metadata.year = Some(NumberOrToken::Number(n));
                },
                None => {
                    return Err(Failure::FieldConversion(Token::Year));
                },
            },
            Token::Track => match parse_number_strict(value) {
                Some(n) => {
                    metadata.track_number = Some(NumberOrToken::Number(n));
                },
                None => {
                    return Err(Failure::FieldConversion(Token::Track));
                },
            },
        }
        Ok(())
    }
}

/// The field whose placeholder stands in `s` at position `i`, if one does.
pub open spec fn placeholder_at(s: Seq<char>, i: int) -> Option<Token> {
    if 0 <= i && i + 3 <= s.len() {
        Token::spelled(s.subrange(i, i + 3))
    } else {
        None
    }
}

/// Assigning loses nothing and touches nothing else. Free text is always
/// taken; a numeric field takes exactly the strict decimal numerals that
/// fit, and a refusal names the field. After an assignment the record holds
/// the value in the field, and every other field, the album cover too, is
/// as it was.
pub proof fn lemma_applied(t: Token, value: Seq<char>, m: MetadataView)
    ensures
        t.applied(value, m) is Ok <==> (t.kind() == ValueKind::FreeText || parse_digits(value)
            is Some),
        t.applied(value, m) is Err ==> t.applied(value, m) == Err::<MetadataView, Failure>(
            Failure::FieldConversion(t),
        ),
        t.applied(value, m) is Ok ==> t.holds(t.applied(value, m)->Ok_0, value),
        t.applied(value, m) is Ok ==> t.applied(value, m)->Ok_0.album_cover == m.album_cover,
        forall|other: Token|
            t.applied(value, m) is Ok && other != t ==> #[trigger] other.same_in(
                m,
                t.applied(value, m)->Ok_0,
            ),
{
}

/// The placeholder spellings are distinct, one for each field: reading a
/// field's spelling gives the field, and only its spelling does.
pub proof fn lemma_spelling_distinct(t: Token, s: Seq<char>)
    ensures
        Token::spelled(t.spelling()) == Some(t),
        Token::spelled(s) == Some(t) <==> s == t.spelling(),
{
    if Token::spelled(s) == Some(t) {
        assert(s =~= t.spelling());
    }
}

} // verus!
