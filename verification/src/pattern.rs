//! Compiled templates: how a template becomes an anchored matching
//! expression, how the texts that the expression captures fill a metadata
//! record, and how an ordered list of templates is tried on a text.

use vstd::prelude::*;
use vstd::string::StringExecFns;
use crate::error::Failure;
use crate::metadata::{Metadata, MetadataView};
use crate::regex_engine::{captures, escaped, groups_view, regex_outcome, RegexOutcome};
pub use crate::template::{ItemPattern, ItemView};
use crate::template::{
    cut_template, items_view, lemma_segments_plain, lemma_segments_surface, literals_plain,
    runs_maximal, segments, surface,
};
use crate::text::{lemma_decimal_round_trip, parse_digits};
use crate::token::{FieldValue, Token, ValueKind};

verus! {

/// A compiled template: its segments in order.
#[derive(Clone, Debug, PartialEq, Eq)]
pub struct ParsePattern {
    items: Vec<ItemPattern>,
}

impl View for ParsePattern {
    type V = Seq<ItemView>;

    closed spec fn view(&self) -> Seq<ItemView> {
        items_view(self.items@)
    }
}

/// The views of a list of templates.
pub open spec fn patterns_view(patterns: Seq<ParsePattern>) -> Seq<Seq<ItemView>> {
    patterns.map_values(|p: ParsePattern| p@)
}

/// The view of a derived record, or the failure.
pub open spec fn metadata_result_view(r: Result<Metadata, Failure>) -> Result<
    MetadataView,
    Failure,
> {
    match r {
        Ok(m) => Ok(m@),
        Err(e) => Err(e),
    }
}

// ---------------------------------------------------------------------
// Matcher builder
// ---------------------------------------------------------------------

/// The part of a matching expression that stands for one segment: literal
/// text with its meta characters escaped, a placeholder as the capture
/// group of its field.
pub open spec fn item_source(item: ItemView) -> Seq<char> {
    match item {
        ItemView::Text(t) => escaped(t),
        ItemView::Token(t) => t.regex_repr(),
    }
}

/// The parts for `items`, one after the other.
pub open spec fn items_source(items: Seq<ItemView>) -> Seq<char>
    decreases items.len(),
{
    if items.len() == 0 {
        Seq::empty()
    } else {
        items_source(items.drop_last()) + item_source(items.last())
    }
}

/// The matching expression of a template: the parts for its segments
/// between `^` and `$`, so that it matches whole texts only.
pub open spec fn matcher_source(items: Seq<ItemView>) -> Seq<char> {
    seq!['^'] + items_source(items) + seq!['$']
}

/// The fields that the placeholders of `items` name, in order. The i-th of
/// them belongs to the i-th capture group of the matching expression.
pub open spec fn tokens_of(items: Seq<ItemView>) -> Seq<Token>
    decreases items.len(),
{
    if items.len() == 0 {
        Seq::empty()
    } else {
        match items.last() {
            ItemView::Token(t) => tokens_of(items.drop_last()).push(t),
            ItemView::Text(_) => tokens_of(items.drop_last()),
        }
    }
}

// ---------------------------------------------------------------------
// Field applier and pattern matcher
// ---------------------------------------------------------------------

/// Every capture group took part in the match, and there is one for each
/// field.
pub open spec fn groups_complete(tokens: Seq<Token>, groups: Seq<Option<Seq<char>>>) -> bool {
    &&& groups.len() == tokens.len() + 1
    &&& forall|i: int| 1 <= i < groups.len() ==> (#[trigger] groups[i]) is Some
}

/// The record after the first `n` fields took the texts of the capture
/// groups 1 to `n`, one after the other, starting from the empty record.
/// A field that occurs twice keeps what it took last. The first text that
/// its field refuses ends it.
pub open spec fn applied_captures(
    tokens: Seq<Token>,
    groups: Seq<Option<Seq<char>>>,
    n: nat,
) -> Result<MetadataView, Failure>
    decreases n,
{
    if n == 0 {
        Ok(MetadataView::empty())
    } else {
        match applied_captures(tokens, groups, (n - 1) as nat) {
            Ok(m) => tokens[n - 1].applied(groups[n as int]->Some_0, m),
            Err(e) => Err(e),
        }
    }
}

/// The record that the captured texts `groups` give for the fields
/// `tokens`. Groups that do not fit the fields one to one are a fault of
/// the matching expression.
pub open spec fn captured_fields(tokens: Seq<Token>, groups: Seq<Option<Seq<char>>>) -> Result<
    MetadataView,
    Failure,
> {
    if groups_complete(tokens, groups) {
        applied_captures(tokens, groups, tokens.len())
    } else {
        Err(Failure::Compile)
    }
}

/// What one template makes of the text `input`.
pub open spec fn try_on(items: Seq<ItemView>, input: Seq<char>) -> Result<MetadataView, Failure> {
    match regex_outcome(matcher_source(items), input) {
        RegexOutcome::Invalid => Err(Failure::Compile),
        RegexOutcome::NoMatch => Err(Failure::NoPatternMatched),
        RegexOutcome::Match(groups) => captured_fields(tokens_of(items), groups),
    }
}

impl ParsePattern {
    /// The template made of `items`.
    pub fn new(items: Vec<ItemPattern>) -> (p: ParsePattern)
        ensures
            p@ == items_view(items@),
    {
        Self { items }
    }

    /// Compiles a template. Every text is a template: what spells no
    /// placeholder is literal.
    pub fn from_str(string: &str) -> (r: Result<ParsePattern, Failure>)
        ensures
            r is Ok,
            r->Ok_0@ == segments(string@),
            surface(r->Ok_0@) == string@,
            runs_maximal(r->Ok_0@),
            literals_plain(r->Ok_0@),
    {
        let items = cut_template(string);
        proof {
            lemma_segments_surface(string@);
            lemma_segments_plain(string@);
        }
        Ok(ParsePattern::new(items))
    }

    /// The templates that are tried, in this order, where the caller names
    /// none.
    pub fn default_patterns() -> (r: Vec<ParsePattern>)
        ensures
            r@.len() == 13,
            patterns_view(r@) == default_templates().map_values(|t: Seq<char>| segments(t)),
    {
        let patterns = [
            "{d} {a} - {t}",
            "{d} {a} — {t}",
            "{d}. {a} - {t}",
            "{d}. {a} — {t}",
            "{a} - {d} {t}",
            "{a} — {d} {t}",
            "{a} - {d}. {t}",
            "{a} — {d}. {t}",
            "{a} - {t}",
            "{a} — {t}",
            "{d} {t}",
            "{d}. {t}",
            "{t}",
        ];
        let mut r: Vec<ParsePattern> = Vec::new();
        let mut i: usize = 0;
        while i < 13
            invariant
                i <= 13,
                r@.len() == i,
                patterns@ == default_templates_text(),
                forall|j: int| 0 <= j < i ==> (#[trigger] r@[j])@ == segments(patterns@[j]@),
            decreases 13 - i,
        {
            match ParsePattern::from_str(patterns[i]) {
                Ok(p) => {
                    r.push(p);
                },
                Err(_) => {},
            }
            i += 1;
        }
        r
    }

    /// The number of segments.
    pub fn len(&self) -> (n: usize)
        ensures
            n == self@.len(),
    {
        self.items.len()
    }

    /// The matching expression of this template.
    pub fn regex_str(&self) -> (r: String)
        ensures
            r@ == matcher_source(self@),
    {
        let mut regex_str = String::new();
        regex_str.push('^');
        let mut i: usize = 0;
        while i < self.items.len()
            invariant
                i <= self.items.len(),
                regex_str@ == seq!['^'] + items_source(self@.take(i as int)),
            decreases self.items.len() - i,
        {
            let part = match &self.items[i] {
                ItemPattern::Text(s) => regex::escape(s.as_str()),
                ItemPattern::Token(t) => t.token_to_regex_repr(),
            };
            proof {
                let next = self@.take(i + 1);
                assert(next.drop_last() == self@.take(i as int));
            }
            regex_str.append(part.as_str());
            i += 1;
        }
        proof {
            assert(self@.take(self.items.len() as int) == self@);
        }
        regex_str.push('$');
        regex_str
    }

    /// The fields that the placeholders name, in order.
    pub fn tokens(&self) -> (r: Vec<Token>)
        ensures
            r@ == tokens_of(self@),
    {
        let mut r: Vec<Token> = Vec::new();
        let mut i: usize = 0;
        while i < self.items.len()
            invariant
                i <= self.items.len(),
                r@ == tokens_of(self@.take(i as int)),
            decreases self.items.len() - i,
        {
            proof {
                let next = self@.take(i + 1);
                assert(next.drop_last() == self@.take(i as int));
            }
            match &self.items[i] {
                ItemPattern::Token(t) => {
                    r.push(*t);
                },
                ItemPattern::Text(_) => {},
            }
            i += 1;
        }
        proof {
            assert(self@.take(self.items.len() as int) == self@);
        }
        r
    }

    /// Fills a record from the texts that this template's matching
    /// expression captured: `groups[0]` is the whole match, `groups[i]` the
    /// text of the i-th placeholder.
    pub fn fields_from_captures(&self, groups: &Vec<Option<String>>) -> (r: Result<
        Metadata,
        Failure,
    >)
        ensures
            metadata_result_view(r) == captured_fields(tokens_of(self@), groups_view(groups@)),
    {
        let tokens = self.tokens();
        let ghost views = groups_view(groups@);
        if groups.len() == 0 || groups.len() - 1 != tokens.len() {
            return Err(Failure::Compile);
        }
        let mut k: usize = 1;
        while k < groups.len()
            invariant
                1 <= k <= groups.len(),
                views == groups_view(groups@),
                forall|j: int| 1 <= j < k ==> (#[trigger] views[j]) is Some,
            decreases groups.len() - k,
        {
            if groups[k].is_none() {
                assert(views[k as int] is None);
                return Err(Failure::Compile);
            }
            k += 1;
        }
        let mut metadata = Metadata::default();
        let mut i: usize = 0;
        while i < tokens.len()
            invariant
                i <= tokens.len(),
                groups.len() == tokens.len() + 1,
                tokens@ == tokens_of(self@),
                views == groups_view(groups@),
                groups_complete(tokens@, views),
                applied_captures(tokens@, views, i as nat) == Ok::<MetadataView, Failure>(
                    metadata@,
                ),
            decreases tokens.len() - i,
        {
            match &groups[i + 1] {
                Some(value) => {
                    match tokens[i].apply_token(value.as_str(), &mut metadata) {
                        Ok(()) => {},
                        Err(e) => {
                            proof {
                                lemma_applied_failure_stays(
                                    tokens@,
                                    views,
                                    (i + 1) as nat,
                                    tokens@.len(),
                                );
                            }
                            return Err(e);
                        },
                    }
                },
                None => {},
            }
            i += 1;
        }
        Ok(metadata)
    }

    /// Matches `input` against this template. The whole of `input` must
    /// fit; then each placeholder's field takes the text that stands in its
    /// place.
    pub fn try_pattern(&self, input: &str) -> (r: Result<Metadata, Failure>)
        ensures
            metadata_result_view(r) == try_on(self@, input@),
    {
        let regex_str = self.regex_str();
        match captures(regex_str.as_str(), input) {
            Err(_) => Err(Failure::Compile),
            Ok(None) => Err(Failure::NoPatternMatched),
            Ok(Some(groups)) => self.fields_from_captures(&groups),
        }
    }

    /// An owned copy.
    pub fn duplicate(&self) -> (r: ParsePattern)
        ensures
            r@ == self@,
    {
        let mut items: Vec<ItemPattern> = Vec::new();
        let mut i: usize = 0;
        while i < self.items.len()
            invariant
                i <= self.items.len(),
                items_view(items@) == self@.take(i as int),
            decreases self.items.len() - i,
        {
            items.push(self.items[i].duplicate());
            proof {
                assert(self@.take(i + 1) == self@.take(i as int).push(self@[i as int]));
            }
            i += 1;
        }
        ParsePattern::new(items)
    }
}

/// What an ordered list of templates makes of the text `stem`: the result
/// of the first template that yields a record. A template whose matching
/// expression is faulty ends the search; one that does not match, or whose
/// captured text its field refuses, is passed over.
pub open spec fn first_match(patterns: Seq<Seq<ItemView>>, stem: Seq<char>) -> Result<
    MetadataView,
    Failure,
>
    decreases patterns.len(),
{
    if patterns.len() == 0 {
        Err(Failure::NoPatternMatched)
    } else {
        match try_on(patterns[0], stem) {
            Ok(m) => Ok(m),
            Err(Failure::Compile) => Err(Failure::Compile),
            Err(_) => first_match(patterns.drop_first(), stem),
        }
    }
}

/// Whether a template is passed over for the text `stem`.
pub open spec fn passed_over(items: Seq<ItemView>, stem: Seq<char>) -> bool {
    try_on(items, stem) is Err && try_on(items, stem) != Err::<MetadataView, Failure>(
        Failure::Compile,
    )
}

/// Templates are tried strictly in the order given: where the templates
/// before the i-th are all passed over and the i-th yields a record or is
/// faulty, the list yields what the i-th does, whatever the later ones
/// would make of the text.
pub proof fn lemma_first_match_in_order(patterns: Seq<Seq<ItemView>>, stem: Seq<char>, i: int)
    requires
        0 <= i < patterns.len(),
        forall|j: int| 0 <= j < i ==> passed_over(#[trigger] patterns[j], stem),
        !passed_over(patterns[i], stem),
    ensures
        first_match(patterns, stem) == try_on(patterns[i], stem),
    decreases i,
{
    if i > 0 {
        let rest = patterns.drop_first();
        lemma_first_match_in_order(rest, stem, i - 1);
    }
}

/// A list fails with "no pattern matched" exactly when every template in it
/// is passed over.
pub proof fn lemma_no_pattern_matched(patterns: Seq<Seq<ItemView>>, stem: Seq<char>)
    ensures
        first_match(patterns, stem) == Err::<MetadataView, Failure>(Failure::NoPatternMatched)
            <==> forall|j: int| 0 <= j < patterns.len() ==> passed_over(#[trigger] patterns[j], stem),
    decreases patterns.len(),
{
    if patterns.len() > 0 {
        let rest = patterns.drop_first();
        lemma_no_pattern_matched(rest, stem);
        if passed_over(patterns[0], stem) {
            if forall|j: int| 0 <= j < rest.len() ==> passed_over(#[trigger] rest[j], stem) {
                assert forall|j: int| 0 <= j < patterns.len() implies passed_over(
                    #[trigger] patterns[j],
                    stem,
                ) by {
                    if j > 0 {
                        assert(patterns[j] == rest[j - 1]);
                    }
                }
            }
        }
    }
}

/// Tries the templates `patterns` on `stem`, in order, and gives the record
/// of the first that yields one.
pub fn match_first(patterns: &[ParsePattern], stem: &str) -> (r: Result<Metadata, Failure>)
    ensures
        metadata_result_view(r) == first_match(patterns_view(patterns@), stem@),
{
    let ghost views = patterns_view(patterns@);
    let mut i: usize = 0;
    proof {
        assert(views.skip(0) == views);
    }
    while i < patterns.len()
        invariant
            i <= patterns.len(),
            views == patterns_view(patterns@),
            first_match(views.skip(i as int), stem@) == first_match(views, stem@),
        decreases patterns.len() - i,
    {
        proof {
            assert(views.skip(i as int).drop_first() == views.skip(i + 1));
        }
        match patterns[i].try_pattern(stem) {
            Ok(metadata) => {
                return Ok(metadata);
            },
            Err(Failure::Compile) => {
                return Err(Failure::Compile);
            },
            Err(_) => {},
        }
        i += 1;
    }
    Err(Failure::NoPatternMatched)
}

/// Once a text was refused, the later fields are not applied.
pub proof fn lemma_applied_failure_stays(
    tokens: Seq<Token>,
    groups: Seq<Option<Seq<char>>>,
    n: nat,
    m: nat,
)
    requires
        n <= m,
        applied_captures(tokens, groups, n) is Err,
    ensures
        applied_captures(tokens, groups, m) == applied_captures(tokens, groups, n),
    decreases m - n,
{
    if n < m {
        lemma_applied_failure_stays(tokens, groups, n, (m - 1) as nat);
    }
}

/// The captured texts fill a record exactly when they fit the fields one
/// to one and every text for a numeric field is a strict decimal numeral
/// that fits.
pub proof fn lemma_captures_accepted(tokens: Seq<Token>, groups: Seq<Option<Seq<char>>>)
    requires
        groups_complete(tokens, groups),
    ensures
        captured_fields(tokens, groups) is Ok <==> forall|i: int|
            0 <= i < tokens.len() && (#[trigger] tokens[i]).kind() == ValueKind::Digits
                ==> parse_digits(groups[i + 1]->Some_0) is Some,
{
    lemma_applied_accepted(tokens, groups, tokens.len());
}

proof fn lemma_applied_accepted(tokens: Seq<Token>, groups: Seq<Option<Seq<char>>>, n: nat)
    requires
        n <= tokens.len(),
    ensures
        applied_captures(tokens, groups, n) is Ok <==> forall|i: int|
            0 <= i < n && (#[trigger] tokens[i]).kind() == ValueKind::Digits ==> parse_digits(
                groups[i + 1]->Some_0,
            ) is Some,
    decreases n,
{
    if n > 0 {
        lemma_applied_accepted(tokens, groups, (n - 1) as nat);
        match applied_captures(tokens, groups, (n - 1) as nat) {
            Ok(m) => {
                crate::token::lemma_applied(tokens[n - 1], groups[n as int]->Some_0, m);
            },
            Err(_) => {},
        }
    }
}

/// Nothing is lost between a captured text and the record: the record
/// that the captured texts give holds, in the field of each placeholder,
/// the text that stood in the placeholder's place; text as it stands, a
/// number as the number that the text denotes. Where a field has several
/// placeholders this is so of the last of them.
pub proof fn lemma_captures_recovered(
    tokens: Seq<Token>,
    groups: Seq<Option<Seq<char>>>,
    i: int,
)
    requires
        groups_complete(tokens, groups),
        captured_fields(tokens, groups) is Ok,
        0 <= i < tokens.len(),
        forall|j: int| i < j < tokens.len() ==> tokens[j] != tokens[i],
    ensures
        tokens[i].holds(captured_fields(tokens, groups)->Ok_0, groups[i + 1]->Some_0),
        captured_fields(tokens, groups)->Ok_0.album_cover is None,
{
    lemma_applied_recovered(tokens, groups, i, tokens.len());
    lemma_applied_no_cover(tokens, groups, tokens.len());
}

proof fn lemma_applied_no_cover(tokens: Seq<Token>, groups: Seq<Option<Seq<char>>>, n: nat)
    requires
        n <= tokens.len(),
        applied_captures(tokens, groups, n) is Ok,
    ensures
        applied_captures(tokens, groups, n)->Ok_0.album_cover is None,
    decreases n,
{
    if n > 0 {
        let before = applied_captures(tokens, groups, (n - 1) as nat);
        lemma_applied_no_cover(tokens, groups, (n - 1) as nat);
        crate::token::lemma_applied(tokens[n - 1], groups[n as int]->Some_0, before->Ok_0);
    }
}

proof fn lemma_applied_recovered(
    tokens: Seq<Token>,
    groups: Seq<Option<Seq<char>>>,
    i: int,
    n: nat,
)
    requires
        0 <= i < n <= tokens.len(),
        applied_captures(tokens, groups, n) is Ok,
        forall|j: int| i < j < tokens.len() ==> tokens[j] != tokens[i],
    ensures
        tokens[i].holds(applied_captures(tokens, groups, n)->Ok_0, groups[i + 1]->Some_0),
    decreases n,
{
    let before = applied_captures(tokens, groups, (n - 1) as nat);
    let last = tokens[n - 1];
    let value = groups[n as int]->Some_0;
    crate::token::lemma_applied(last, value, before->Ok_0);
    if n - 1 > i {
        lemma_applied_recovered(tokens, groups, i, (n - 1) as nat);
    }
}

/// The texts that a matching expression captures where the values
/// `values` stand in the placeholders' places of the text `whole`.
pub open spec fn captured_from(whole: Seq<char>, values: Seq<FieldValue>) -> Seq<
    Option<Seq<char>>,
> {
    seq![Some(whole)] + values.map_values(|v: FieldValue| Some(v.written()))
}

/// Values survive being written and captured: where each placeholder's
/// place holds a value of its field's kind, written as text, the captured
/// texts always give a record, and the record has in each field exactly
/// the value that was written; for a field with several placeholders, that
/// of the last.
pub proof fn lemma_values_round_trip(
    tokens: Seq<Token>,
    values: Seq<FieldValue>,
    whole: Seq<char>,
    i: int,
)
    requires
        tokens.len() == values.len(),
        forall|j: int| 0 <= j < tokens.len() ==> (#[trigger] tokens[j]).takes(values[j]),
        0 <= i < tokens.len(),
        forall|j: int| i < j < tokens.len() ==> tokens[j] != tokens[i],
    ensures
        captured_fields(tokens, captured_from(whole, values)) is Ok,
        tokens[i].has(captured_fields(tokens, captured_from(whole, values))->Ok_0, values[i]),
{
    let groups = captured_from(whole, values);
    assert forall|j: int| 0 <= j < tokens.len() implies groups[j + 1] == Some(
        values[j].written(),
    ) && ((#[trigger] tokens[j]).kind() == ValueKind::Digits ==> parse_digits(
        groups[j + 1]->Some_0,
    ) == Some(values[j]->Number_0)) by {
        if tokens[j].kind() == ValueKind::Digits {
            lemma_decimal_round_trip(values[j]->Number_0 as nat);
        }
    }
    assert(groups_complete(tokens, groups));
    lemma_captures_accepted(tokens, groups);
    lemma_captures_recovered(tokens, groups, i);
}

/// The built-in templates as they are written, most specific first. The
/// variants with a hyphen and with an em dash are entries of their own.
pub open spec fn default_templates_text() -> Seq<&'static str> {
    seq![
        "{d} {a} - {t}",
        "{d} {a} — {t}",
        "{d}. {a} - {t}",
        "{d}. {a} — {t}",
        "{a} - {d} {t}",
        "{a} — {d} {t}",
        "{a} - {d}. {t}",
        "{a} — {d}. {t}",
        "{a} - {t}",
        "{a} — {t}",
        "{d} {t}",
        "{d}. {t}",
        "{t}",
    ]
}

/// The texts of the built-in templates.
pub open spec fn default_templates() -> Seq<Seq<char>> {
    default_templates_text().map_values(|t: &'static str| t@)
}

} // verus!
