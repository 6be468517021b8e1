use fme::error::Failure;
use fme::pattern::{ItemPattern, ParsePattern};
use fme::tags::{WriteAction, WriteState};
use fme::audio_file::{AudioFile, PathParts};
use fme::metadata::Metadata;
use fme::token::Token;

const SPELLINGS: [&str; 5] = ["{a}", "{t}", "{d}", "{m}", "{y}"];

/// The pieces of `input` between the occurrences of `token`, with `token`
/// itself between them, empty pieces left out.
fn split_keeping(input: &str, token: &str) -> Vec<String> {
    let mut pieces = Vec::new();
    for (i, part) in input.split(token).enumerate() {
        if i > 0 {
            pieces.push(token.to_string());
        }
        pieces.push(part.to_string());
    }
    pieces.retain(|x| !x.is_empty());
    pieces
}

/// Cuts a template by splitting it at one placeholder after the other.
fn cut_by_splitting(template: &str) -> Vec<ItemPattern> {
    let mut pieces = vec![template.to_string()];
    for token in SPELLINGS {
        pieces = pieces.iter().flat_map(|x| split_keeping(x, token)).collect();
    }
    pieces
        .iter()
        .map(|x| match Token::from_str(x) {
            Ok(t) => ItemPattern::Token(t),
            Err(_) => ItemPattern::Text(x.clone()),
        })
        .collect()
}

fn surface(items: &[ItemPattern]) -> String {
    let mut s = String::new();
    for item in items {
        match item {
            ItemPattern::Text(t) => s.push_str(t),
            ItemPattern::Token(Token::Artist) => s.push_str("{a}"),
            ItemPattern::Token(Token::Title) => s.push_str("{t}"),
            ItemPattern::Token(Token::Album) => s.push_str("{m}"),
            ItemPattern::Token(Token::Year) => s.push_str("{y}"),
            ItemPattern::Token(Token::Track) => s.push_str("{d}"),
        }
    }
    s
}

fn check_template(template: &str) {
    let items = cut_by_splitting(template);
    assert_eq!(
        ParsePattern::from_str(template),
        Ok(ParsePattern::new(items.clone())),
        "for {:?}",
        template
    );
    assert_eq!(surface(&items), template);
    for pair in items.windows(2) {
        assert!(
            !(matches!(pair[0], ItemPattern::Text(_)) && matches!(pair[1], ItemPattern::Text(_))),
            "for {:?}",
            template
        );
    }
    for item in &items {
        if let ItemPattern::Text(t) = item {
            assert!(!t.is_empty());
            for token in SPELLINGS {
                assert!(!t.contains(token), "for {:?}", template);
            }
        }
    }
}

#[test]
fn template_is_cut_as_by_splitting_at_each_placeholder() {
    let alphabet = ['{', '}', 'a', 't', 'x', '—'];
    let mut templates = vec![String::new()];
    let mut frontier = vec![String::new()];
    for _ in 0..6 {
        let mut next = Vec::new();
        for s in &frontier {
            for c in alphabet {
                let mut longer = s.clone();
                longer.push(c);
                next.push(longer);
            }
        }
        templates.extend(next.iter().cloned());
        frontier = next;
    }
    assert_eq!(templates.len(), 1 + 6 + 36 + 216 + 1296 + 7776 + 46656);
    for template in &templates {
        check_template(template);
    }
}

#[test]
fn longer_templates_are_cut_as_by_splitting() {
    for template in [
        "{d}. {a} - {t}",
        "{y}{m}{d}{t}{a}{y}{m}{d}{t}{a}",
        "{{{a}}}{{t}{y}}{m",
        "{a}{a}{a}",
        "}{a}{",
        "{a }{ a}{a}",
        "{d}{n}{d}",
        "({y}) [{m}] {d}.{t}.{a}",
        "${1}{t}${2}",
    ] {
        check_template(template);
    }
}

#[test]
fn template_too_large_to_compile_is_a_failure_not_a_crash() {
    let mut template = "x".repeat(3_000_000);
    template.push_str("{t}");
    let pattern = ParsePattern::from_str(&template).unwrap();
    assert_eq!(pattern.len(), 2);
    assert_eq!(pattern.try_pattern("xx"), Err(Failure::Compile));
}

#[test]
fn writing_ends_within_five_steps_whatever_happens() {
    let file = AudioFile::new(&PathParts {
        path: "a.mp3".to_string(),
        extension: Some("mp3".to_string()),
        file_stem: Some("a".to_string()),
        is_file: true,
    })
    .unwrap();
    let metadata = Metadata { title: Some("T".to_string()), ..Metadata::default() };
    for outcomes in 0..32u32 {
        let mut state = WriteState::Start;
        let mut succeeded = true;
        let mut steps = 0;
        loop {
            let (next, action) = file.write_metadata(&metadata, None, state, succeeded);
            steps += 1;
            state = next;
            let ended = matches!(action, WriteAction::Finish | WriteAction::Fail(_));
            assert_eq!(ended, state == WriteState::Done);
            if ended {
                break;
            }
            succeeded = (outcomes >> steps) & 1 == 1;
        }
        assert!(steps <= 5, "{} steps for outcomes {:05b}", steps, outcomes);
    }
}
