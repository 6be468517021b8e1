use fme::error::Failure;
use fme::metadata::{Metadata, NumberOrToken};

fn sample() -> Metadata {
    Metadata {
        title: Some("Title".to_string()),
        artist: None,
        album_title: Some("Album".to_string()),
        album_cover: None,
        year: Some(NumberOrToken::Number(1999)),
        track_number: None,
    }
}

fn sample_override() -> Metadata {
    Metadata {
        title: Some("Other".to_string()),
        artist: Some("Artist".to_string()),
        album_title: None,
        album_cover: Some("cover.png".to_string()),
        year: None,
        track_number: Some(NumberOrToken::Token("${1}".to_string())),
    }
}

#[test]
fn default_record_is_empty() {
    let m = Metadata::default();
    assert_eq!(m.title, None);
    assert_eq!(m.artist, None);
    assert_eq!(m.album_title, None);
    assert_eq!(m.album_cover, None);
    assert_eq!(m.year, None);
    assert_eq!(m.track_number, None);
}

#[test]
fn override_wins_field_by_field() {
    let mut m = sample();
    m.update(&sample_override());
    assert_eq!(m.title, Some("Other".to_string()));
    assert_eq!(m.artist, Some("Artist".to_string()));
    assert_eq!(m.album_title, Some("Album".to_string()));
    assert_eq!(m.album_cover, Some("cover.png".to_string()));
    assert_eq!(m.year, Some(NumberOrToken::Number(1999)));
    assert_eq!(m.track_number, Some(NumberOrToken::Token("${1}".to_string())));
}

#[test]
fn empty_override_changes_nothing() {
    let mut m = sample();
    m.update(&Metadata::default());
    assert_eq!(m, sample());
    let mut e = Metadata::default();
    e.update(&Metadata::default());
    assert_eq!(e, Metadata::default());
}

#[test]
fn merging_twice_is_merging_once() {
    let mut once = sample();
    once.update(&sample_override());
    let mut twice = sample();
    twice.update(&sample_override());
    twice.update(&sample_override());
    assert_eq!(once, twice);
}

#[test]
fn merging_into_empty_record_gives_the_override() {
    let mut m = Metadata::default();
    m.update(&sample_override());
    assert_eq!(m, sample_override());
}

#[test]
fn update_leaves_the_override_alone() {
    let over = sample_override();
    let mut m = sample();
    m.update(&over);
    assert_eq!(over, sample_override());
}

#[test]
fn duplicate_is_equal() {
    assert_eq!(sample_override().duplicate(), sample_override());
    assert_eq!(NumberOrToken::Number(3).duplicate(), NumberOrToken::Number(3));
    assert_eq!(
        NumberOrToken::Token("${2}".to_string()).duplicate(),
        NumberOrToken::Token("${2}".to_string())
    );
}

#[test]
fn numeric_text_becomes_a_number() {
    assert_eq!(NumberOrToken::from_str("12"), Ok(NumberOrToken::Number(12)));
    assert_eq!(NumberOrToken::from_str("0012"), Ok(NumberOrToken::Number(12)));
    assert_eq!(NumberOrToken::from_str("4294967295"), Ok(NumberOrToken::Number(4294967295)));
}

#[test]
fn other_text_is_kept_as_a_token() {
    assert_eq!(NumberOrToken::from_str("${1}"), Ok(NumberOrToken::Token("${1}".to_string())));
    assert_eq!(NumberOrToken::from_str("1a"), Ok(NumberOrToken::Token("1a".to_string())));
    assert_eq!(NumberOrToken::from_str("+5"), Ok(NumberOrToken::Token("+5".to_string())));
    assert_eq!(NumberOrToken::from_str("-5"), Ok(NumberOrToken::Token("-5".to_string())));
    assert_eq!(NumberOrToken::from_str(" "), Ok(NumberOrToken::Token(" ".to_string())));
}

#[test]
fn numeric_text_that_is_no_number_is_refused() {
    assert_eq!(NumberOrToken::from_str(""), Err(Failure::InvalidNumber));
    assert_eq!(NumberOrToken::from_str("4294967296"), Err(Failure::InvalidNumber));
    assert_eq!(NumberOrToken::from_str("٣"), Err(Failure::InvalidNumber));
    assert_eq!(NumberOrToken::from_str("1¾"), Err(Failure::InvalidNumber));
}
