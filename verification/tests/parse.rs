use fme::pattern::{ItemPattern, ParsePattern};
use fme::token::Token;

#[test]
fn test_pattern_from_str() {
    assert_eq!(
        ParsePattern::from_str("{d} {a} - {t}").unwrap(),
        ParsePattern::new(
            [
                ItemPattern::Token(Token::Track),
                ItemPattern::Text(" ".to_string()),
                ItemPattern::Token(Token::Artist),
                ItemPattern::Text(" - ".to_string()),
                ItemPattern::Token(Token::Title)
            ]
            .to_vec()
        )
    );

    assert_eq!(
        ParsePattern::from_str("{d}. {a} — {t}").unwrap(),
        ParsePattern::new(
            [
                ItemPattern::Token(Token::Track),
                ItemPattern::Text(". ".to_string()),
                ItemPattern::Token(Token::Artist),
                ItemPattern::Text(" — ".to_string()),
                ItemPattern::Token(Token::Title)
            ]
            .to_vec()
        )
    );

    assert_eq!(
        ParsePattern::from_str("{a}{a} - {t}").unwrap(),
        ParsePattern::new(
            [
                ItemPattern::Token(Token::Artist),
                ItemPattern::Token(Token::Artist),
                ItemPattern::Text(" - ".to_string()),
                ItemPattern::Token(Token::Title)
            ]
            .to_vec()
        )
    );

    assert_eq!(
        ParsePattern::from_str("{t}").unwrap(),
        ParsePattern::new([ItemPattern::Token(Token::Title)].to_vec())
    );
}

#[test]
fn test_patterns() {
    let pattern1 = ParsePattern::from_str("{d}. {a} - {t}").unwrap();
    let input1 = "12. Foo - Bar";
    let input1_ = "12. Foo & Bazz & Quuz vs Booz & Tooz - Bar (no {quuz})";
    assert!(pattern1.try_pattern(input1).is_ok());
    assert!(pattern1.try_pattern(input1_).is_ok());

    let pattern2 = ParsePattern::from_str("{d}. {t}").unwrap();
    let input2 = "12. Foo - Bar";
    assert!(pattern2.try_pattern(input2).is_ok());
}
