use fme::error::Failure;
use fme::metadata::{Metadata, NumberOrToken};
use fme::token::{Token, ValueKind};

#[test]
fn placeholders_are_read_by_their_spelling() {
    assert_eq!(Token::from_str("{a}"), Ok(Token::Artist));
    assert_eq!(Token::from_str("{t}"), Ok(Token::Title));
    assert_eq!(Token::from_str("{m}"), Ok(Token::Album));
    assert_eq!(Token::from_str("{y}"), Ok(Token::Year));
    assert_eq!(Token::from_str("{d}"), Ok(Token::Track));
}

#[test]
fn other_texts_are_no_placeholders() {
    for s in ["", "a", "{a", "a}", "{n}", "{A}", "{a} ", " {a}", "{aa}", "{}", "{a}{t}", "(a)"] {
        assert_eq!(Token::from_str(s), Err(Failure::UnknownToken), "for {:?}", s);
    }
}

#[test]
fn placeholder_is_found_inside_a_text() {
    let v: Vec<char> = "x{d}y{".chars().collect();
    assert_eq!(Token::at(&v, 0), None);
    assert_eq!(Token::at(&v, 1), Some(Token::Track));
    assert_eq!(Token::at(&v, 2), None);
    assert_eq!(Token::at(&v, 5), None);
    assert_eq!(Token::at(&v, 6), None);
}

#[test]
fn value_kinds_are_fixed() {
    assert_eq!(Token::Artist.value_kind(), ValueKind::FreeText);
    assert_eq!(Token::Title.value_kind(), ValueKind::FreeText);
    assert_eq!(Token::Album.value_kind(), ValueKind::FreeText);
    assert_eq!(Token::Year.value_kind(), ValueKind::Digits);
    assert_eq!(Token::Track.value_kind(), ValueKind::Digits);
}

#[test]
fn capture_groups_depend_on_the_kind() {
    assert_eq!(Token::Artist.token_to_regex_repr(), "(.+?)");
    assert_eq!(Token::Title.token_to_regex_repr(), "(.+?)");
    assert_eq!(Token::Album.token_to_regex_repr(), "(.+?)");
    assert_eq!(Token::Year.token_to_regex_repr(), "([0-9]+)");
    assert_eq!(Token::Track.token_to_regex_repr(), "([0-9]+)");
}

#[test]
fn free_text_is_assigned_verbatim() {
    let mut m = Metadata::default();
    assert_eq!(Token::Artist.apply_token("  Foo  ", &mut m), Ok(()));
    assert_eq!(Token::Title.apply_token("bAr", &mut m), Ok(()));
    assert_eq!(Token::Album.apply_token("12", &mut m), Ok(()));
    assert_eq!(m.artist, Some("  Foo  ".to_string()));
    assert_eq!(m.title, Some("bAr".to_string()));
    assert_eq!(m.album_title, Some("12".to_string()));
    assert_eq!(m.year, None);
    assert_eq!(m.track_number, None);
    assert_eq!(m.album_cover, None);
}

#[test]
fn digits_are_assigned_as_numbers() {
    let mut m = Metadata::default();
    assert_eq!(Token::Year.apply_token("1999", &mut m), Ok(()));
    assert_eq!(Token::Track.apply_token("07", &mut m), Ok(()));
    assert_eq!(m.year, Some(NumberOrToken::Number(1999)));
    assert_eq!(m.track_number, Some(NumberOrToken::Number(7)));
    assert_eq!(m.artist, None);
}

#[test]
fn text_that_is_no_number_is_refused_and_names_the_field() {
    let mut m = Metadata::default();
    m.year = Some(NumberOrToken::Number(1));
    m.title = Some("kept".to_string());
    let before = m.clone();
    assert_eq!(Token::Year.apply_token("19x9", &mut m), Err(Failure::FieldConversion(Token::Year)));
    assert_eq!(m, before);
    assert_eq!(Token::Track.apply_token("", &mut m), Err(Failure::FieldConversion(Token::Track)));
    assert_eq!(m, before);
    assert_eq!(
        Token::Track.apply_token("99999999999", &mut m),
        Err(Failure::FieldConversion(Token::Track))
    );
    assert_eq!(Token::Year.apply_token("+5", &mut m), Err(Failure::FieldConversion(Token::Year)));
    assert_eq!(Token::Year.apply_token("${1}", &mut m), Err(Failure::FieldConversion(Token::Year)));
    assert_eq!(m, before);
}

#[test]
fn later_value_replaces_earlier_one() {
    let mut m = Metadata::default();
    assert_eq!(Token::Artist.apply_token("first", &mut m), Ok(()));
    assert_eq!(Token::Artist.apply_token("second", &mut m), Ok(()));
    assert_eq!(m.artist, Some("second".to_string()));
}
