use fme::audio_file::{AudioFile, PathParts};
use fme::error::Failure;
use fme::metadata::{Metadata, NumberOrToken};
use fme::substitute::{index_token_chars, substitute_captures, substitute_in};
use fme::token::Token;

fn file(stem: &str) -> AudioFile {
    AudioFile::new(&PathParts {
        path: format!("/music/{}.mp3", stem),
        extension: Some("mp3".to_string()),
        file_stem: Some(stem.to_string()),
        is_file: true,
    })
    .unwrap()
}

fn token(s: &str) -> Option<NumberOrToken> {
    Some(NumberOrToken::Token(s.to_string()))
}

fn groups(texts: &[Option<&str>]) -> Vec<Option<String>> {
    texts.iter().map(|t| t.map(|s| s.to_string())).collect()
}

#[test]
fn positional_tokens_are_written_with_decimal_numbers() {
    let as_string = |i: usize| index_token_chars(i).into_iter().collect::<String>();
    assert_eq!(as_string(1), "${1}");
    assert_eq!(as_string(0), "${0}");
    assert_eq!(as_string(10), "${10}");
    assert_eq!(as_string(123), "${123}");
}

#[test]
fn captured_groups_replace_their_tokens() {
    let over = Metadata {
        title: Some("${2}-live".to_string()),
        track_number: token("${1}"),
        ..Metadata::default()
    };
    let m = file("07 - My Song").regex_metadata_from_filename(r"^(\d+) - (.+)$", &over).unwrap();
    assert_eq!(m.track_number, Some(NumberOrToken::Number(7)));
    assert_eq!(m.title, Some("My Song-live".to_string()));
    assert_eq!(m.artist, None);
    assert_eq!(m.album_title, None);
    assert_eq!(m.album_cover, None);
    assert_eq!(m.year, None);
}

#[test]
fn token_that_is_no_number_after_substitution_fails() {
    let over = Metadata { track_number: token("${1}"), ..Metadata::default() };
    assert_eq!(
        file("ab - cd").regex_metadata_from_filename(r"^(.+) - (.+)$", &over),
        Err(Failure::FieldConversion(Token::Track))
    );
    let over = Metadata { year: token("${2}"), ..Metadata::default() };
    assert_eq!(
        file("ab - cd").regex_metadata_from_filename(r"^(.+) - (.+)$", &over),
        Err(Failure::FieldConversion(Token::Year))
    );
}

#[test]
fn expression_that_does_not_match_fails() {
    let over = Metadata { title: Some("${1}".to_string()), ..Metadata::default() };
    assert_eq!(
        file("My Song").regex_metadata_from_filename(r"^(\d+) - (.+)$", &over),
        Err(Failure::RegexNoMatch)
    );
}

#[test]
fn expression_that_does_not_compile_fails() {
    let over = Metadata::default();
    assert_eq!(file("My Song").regex_metadata_from_filename(r"(", &over), Err(Failure::Compile));
    assert_eq!(file("My Song").regex_metadata_from_filename(r"\e", &over), Err(Failure::Compile));
    assert_eq!(
        file("My Song").regex_metadata_from_filename(r"\w{1000}{1000}", &over),
        Err(Failure::Compile)
    );
}

#[test]
fn expression_may_match_a_part_of_the_name() {
    let over = Metadata { title: Some("<${1}>".to_string()), ..Metadata::default() };
    let m = file("07 - My Song").regex_metadata_from_filename(r"(\d+)", &over).unwrap();
    assert_eq!(m.title, Some("<07>".to_string()));
}

#[test]
fn every_text_field_is_substituted() {
    let over = Metadata {
        title: Some("${1}".to_string()),
        artist: Some("${2} and ${2}".to_string()),
        album_title: Some("${1}${2}${3}".to_string()),
        album_cover: Some("${1}.png".to_string()),
        year: Some(NumberOrToken::Number(2000)),
        track_number: token("${3}"),
    };
    let m = substitute_captures(&groups(&[Some("w"), Some("a"), Some("b"), Some("3")]), &over).unwrap();
    assert_eq!(m.title, Some("a".to_string()));
    assert_eq!(m.artist, Some("b and b".to_string()));
    assert_eq!(m.album_title, Some("ab3".to_string()));
    assert_eq!(m.album_cover, Some("${1}.png".to_string()));
    assert_eq!(m.year, Some(NumberOrToken::Number(2000)));
    assert_eq!(m.track_number, Some(NumberOrToken::Number(3)));
}

#[test]
fn whole_match_has_no_token() {
    assert_eq!(substitute_in("${0}-${1}", &groups(&[Some("whole"), Some("one")])), "${0}-one");
}

#[test]
fn group_that_took_no_part_stands_for_empty_text() {
    assert_eq!(substitute_in("[${1}${2}]", &groups(&[Some("b"), None, Some("b")])), "[b]");
    let over = Metadata { title: Some("[${1}|${2}]".to_string()), ..Metadata::default() };
    let m = file("b").regex_metadata_from_filename(r"^(a)?(b)$", &over).unwrap();
    assert_eq!(m.title, Some("[|b]".to_string()));
}

#[test]
fn groups_are_substituted_one_after_the_other() {
    assert_eq!(substitute_in("${1}", &groups(&[Some("w"), Some("${2}"), Some("x")])), "x");
    assert_eq!(substitute_in("${2}", &groups(&[Some("w"), Some("y"), Some("${1}")])), "${1}");
}

#[test]
fn tokens_beyond_the_groups_stay() {
    assert_eq!(substitute_in("${1}${2}${3}", &groups(&[Some("w"), Some("a")])), "a${2}${3}");
    assert_eq!(substitute_in("${1}", &groups(&[Some("w")])), "${1}");
    assert_eq!(substitute_in("${1}", &groups(&[])), "${1}");
}

#[test]
fn tenth_group_is_not_the_first() {
    let g = groups(&[
        Some("w"), Some("1st"), Some("b"), Some("c"), Some("d"), Some("e"), Some("f"),
        Some("g"), Some("h"), Some("i"), Some("10th"),
    ]);
    assert_eq!(substitute_in("${1} ${10}", &g), "1st 10th");
}

#[test]
fn plus_sign_is_accepted_in_a_resolved_number() {
    let over = Metadata { year: token("+${1}"), ..Metadata::default() };
    let m = substitute_captures(&groups(&[Some("w"), Some("5")]), &over).unwrap();
    assert_eq!(m.year, Some(NumberOrToken::Number(5)));
}

#[test]
fn token_without_groups_must_still_be_a_number() {
    let over = Metadata { year: token("abc"), ..Metadata::default() };
    assert_eq!(
        substitute_captures(&groups(&[Some("w")]), &over),
        Err(Failure::FieldConversion(Token::Year))
    );
    let over = Metadata { year: token("12"), ..Metadata::default() };
    assert_eq!(
        substitute_captures(&groups(&[Some("w")]), &over).unwrap().year,
        Some(NumberOrToken::Number(12))
    );
}

#[test]
fn track_number_is_looked_at_before_year() {
    let over = Metadata { year: token("x"), track_number: token("y"), ..Metadata::default() };
    assert_eq!(
        substitute_captures(&groups(&[Some("w")]), &over),
        Err(Failure::FieldConversion(Token::Track))
    );
}

#[test]
fn resolved_number_must_fit() {
    let over = Metadata { track_number: token("${1}"), ..Metadata::default() };
    assert_eq!(
        substitute_captures(&groups(&[Some("w"), Some("4294967296")]), &over),
        Err(Failure::FieldConversion(Token::Track))
    );
    assert_eq!(
        substitute_captures(&groups(&[Some("w"), Some("4294967295")]), &over).unwrap().track_number,
        Some(NumberOrToken::Number(4294967295))
    );
}

#[test]
fn record_without_tokens_comes_back_as_it_is() {
    let over = Metadata {
        title: Some("T".to_string()),
        artist: None,
        album_title: Some("A".to_string()),
        album_cover: Some("c.jpg".to_string()),
        year: Some(NumberOrToken::Number(1)),
        track_number: None,
    };
    assert_eq!(substitute_captures(&groups(&[Some("w"), Some("x")]), &over), Ok(over.clone()));
}
