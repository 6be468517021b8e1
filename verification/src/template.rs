//! The template language: a template is cut into literal text and
//! placeholders, and the segments written one after the other give the
//! template back.

use vstd::prelude::*;
use vstd::string::StringExecFns;
use crate::error::Failure;
use crate::text::{chars_of, string_of_range};
use crate::token::{lemma_spelling_distinct, placeholder_at, Token};

verus! {

/// One segment of a template.
#[derive(Clone, Debug, PartialEq, Eq)]
pub enum ItemPattern {
    /// Literal text, which the filename must hold as it stands.
    Text(String),
    /// A placeholder for a field.
    Token(Token),
}

/// What an `ItemPattern` holds.
pub enum ItemView {
    Text(Seq<char>),
    Token(Token),
}

impl View for ItemPattern {
    type V = ItemView;

    open spec fn view(&self) -> ItemView {
        match self {
            ItemPattern::Text(s) => ItemView::Text(s@),
            ItemPattern::Token(t) => ItemView::Token(*t),
        }
    }
}

/// The views of segments.
pub open spec fn items_view(items: Seq<ItemPattern>) -> Seq<ItemView> {
    items.map_values(|i: ItemPattern| i@)
}

/// `items` with the literal character `c` put in front: `c` joins the
/// literal text that `items` begins with, or begins one where `items` is
/// empty or begins with a placeholder.
pub open spec fn with_leading_char(c: char, items: Seq<ItemView>) -> Seq<ItemView> {
    if items.len() > 0 && items[0] is Text {
        seq![ItemView::Text(seq![c] + items[0]->Text_0)] + items.drop_first()
    } else {
        seq![ItemView::Text(seq![c])] + items
    }
}

/// The segments of the template `s`, read from left to right: wherever a
/// placeholder is spelled it becomes a placeholder segment, and every
/// character that no placeholder takes is literal and joins the characters
/// next to it into one literal segment.
pub open spec fn segments(s: Seq<char>) -> Seq<ItemView>
    decreases s.len(),
{
    if s.len() == 0 {
        Seq::empty()
    } else {
        match placeholder_at(s, 0) {
            Some(t) => seq![ItemView::Token(t)] + segments(s.skip(3)),
            None => with_leading_char(s[0], segments(s.drop_first())),
        }
    }
}

/// A segment as it is written in a template.
pub open spec fn item_surface(item: ItemView) -> Seq<char> {
    match item {
        ItemView::Text(t) => t,
        ItemView::Token(t) => t.spelling(),
    }
}

/// The template that the segments `items` are written as.
pub open spec fn surface(items: Seq<ItemView>) -> Seq<char>
    decreases items.len(),
{
    if items.len() == 0 {
        Seq::empty()
    } else {
        item_surface(items[0]) + surface(items.drop_first())
    }
}

/// No literal segment is empty, and no two literal segments stand side by
/// side: each one is a maximal run of literal text.
pub open spec fn runs_maximal(items: Seq<ItemView>) -> bool {
    &&& forall|i: int|
        0 <= i < items.len() && (#[trigger] items[i]) is Text ==> items[i]->Text_0.len() > 0
    &&& forall|i: int|
        0 <= i < items.len() - 1 && (#[trigger] items[i]) is Text ==> !(items[i + 1] is Text)
}

/// Putting a literal character in front of segments puts it in front of
/// what they are written as.
pub proof fn lemma_surface_leading_char(c: char, items: Seq<ItemView>)
    ensures
        surface(with_leading_char(c, items)) == seq![c] + surface(items),
        runs_maximal(items) ==> runs_maximal(with_leading_char(c, items)),
        with_leading_char(c, items).len() > 0,
        with_leading_char(c, items)[0] is Text,
{
    let r = with_leading_char(c, items);
    if items.len() > 0 && items[0] is Text {
        assert(r.drop_first() == items.drop_first());
    } else {
        assert(r.drop_first() == items);
    }
}

/// Written one after the other, the segments of a template give the
/// template back, character for character; and each literal segment is a
/// maximal run of literal text.
pub proof fn lemma_segments_surface(s: Seq<char>)
    ensures
        surface(segments(s)) == s,
        runs_maximal(segments(s)),
    decreases s.len(),
{
    if s.len() > 0 {
        match placeholder_at(s, 0) {
            Some(t) => {
                let rest = segments(s.skip(3));
                let all = seq![ItemView::Token(t)] + rest;
                lemma_segments_surface(s.skip(3));
                lemma_spelling_distinct(t, s.subrange(0, 3));
                assert(all.drop_first() == rest);
            },
            None => {
                lemma_segments_surface(s.drop_first());
                lemma_surface_leading_char(s[0], segments(s.drop_first()));
            },
        }
    }
}

/// No placeholder is spelled inside a literal segment.
pub open spec fn literals_plain(items: Seq<ItemView>) -> bool {
    forall|i: int, k: int|
        0 <= i < items.len() && items[i] is Text ==> (#[trigger] placeholder_at(
            items[i]->Text_0,
            k,
        )) is None
}

/// Every placeholder that a template spells becomes a placeholder segment:
/// none is left inside the literal text.
pub proof fn lemma_segments_plain(s: Seq<char>)
    ensures
        literals_plain(segments(s)),
    decreases s.len(),
{
    if s.len() > 0 {
        match placeholder_at(s, 0) {
            Some(_) => {
                lemma_segments_plain(s.skip(3));
            },
            None => {
                let rest = segments(s.drop_first());
                let all = with_leading_char(s[0], rest);
                lemma_segments_plain(s.drop_first());
                lemma_segments_surface(s);
                assert forall|i: int, k: int| 0 <= i < all.len() && all[i] is Text implies (
                #[trigger] placeholder_at(all[i]->Text_0, k)) is None by {
                    if rest.len() > 0 && rest[0] is Text && i == 0 && k >= 1 {
                        assert(placeholder_at(rest[0]->Text_0, k - 1) is None);
                    }
                }
            },
        }
    }
}

/// `rest` with the literal text `run` put in front.
pub open spec fn with_leading_run(run: Seq<char>, rest: Seq<ItemView>) -> Seq<ItemView> {
    if run.len() == 0 {
        rest
    } else if rest.len() > 0 && rest[0] is Text {
        seq![ItemView::Text(run + rest[0]->Text_0)] + rest.drop_first()
    } else {
        seq![ItemView::Text(run)] + rest
    }
}

proof fn lemma_run_grows(run: Seq<char>, c: char, rest: Seq<ItemView>)
    ensures
        with_leading_run(run, with_leading_char(c, rest)) == with_leading_run(run.push(c), rest),
{
    if rest.len() > 0 && rest[0] is Text {
        let tail = rest[0]->Text_0;
        assert(run.push(c) + tail == run + (seq![c] + tail));
    } else {
        assert(run.push(c) == run + seq![c]);
    }
}

impl ItemPattern {
    /// Reads one segment: a placeholder where `string` spells one, literal
    /// text otherwise.
    pub fn from_str(string: &str) -> (r: Result<ItemPattern, Failure>)
        ensures
            r is Ok,
            r->Ok_0@ == match Token::spelled(string@) {
                Some(t) => ItemView::Token(t),
                None => ItemView::Text(string@),
            },
    {
        match Token::from_str(string) {
            Ok(x) => Ok(ItemPattern::Token(x)),
            Err(_) => Ok(ItemPattern::Text(String::from_str(string))),
        }
    }

    /// An owned copy.
    pub fn duplicate(&self) -> (r: ItemPattern)
        ensures
            r@ == self@,
    {
        match self {
            ItemPattern::Text(s) => ItemPattern::Text(s.clone()),
            ItemPattern::Token(t) => ItemPattern::Token(*t),
        }
    }
}

/// Cuts the template `string` into its segments.
pub fn cut_template(string: &str) -> (items: Vec<ItemPattern>)
    ensures
        items_view(items@) == segments(string@),
{
    let v = chars_of(string);
    let ghost s = v@;
    let mut items: Vec<ItemPattern> = Vec::new();
    let mut start: usize = 0;
    let mut i: usize = 0;
    proof {
        assert(s.skip(0) == s);
    }
    while i < v.len()
        invariant
            start <= i <= v.len(),
            s == v@,
            items_view(items@) + with_leading_run(
                s.subrange(start as int, i as int),
                segments(s.skip(i as int)),
            ) == segments(s),
        decreases v.len() - i,
    {
        let ghost run = s.subrange(start as int, i as int);
        let ghost tail = s.skip(i as int);
        match Token::at(&v, i) {
            Some(t) => {
                proof {
                    assert(tail.skip(3) == s.skip(i + 3));
                }
                if start < i {
                    items.push(ItemPattern::Text(string_of_range(&v, start, i)));
                }
                items.push(ItemPattern::Token(t));
                i += 3;
                start = i;
            },
            None => {
                proof {
                    assert(tail.drop_first() == s.skip(i + 1));
                    assert(run.push(s[i as int]) == s.subrange(start as int, i + 1));
                    lemma_run_grows(run, s[i as int], segments(s.skip(i + 1)));
                }
                i += 1;
            },
        }
    }
    if start < i {
        items.push(ItemPattern::Text(string_of_range(&v, start, i)));
    }
    items
}

} // verus!
