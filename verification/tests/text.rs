use fme::text::{
    chars_are, chars_of, parse_number, parse_number_strict, push_decimal, replace_in,
    replace_text, string_of, string_of_range,
};

fn chars(s: &str) -> Vec<char> {
    s.chars().collect()
}

#[test]
fn chars_round_trip_keeps_every_character() {
    let text = "{d}. {a} — {t} ünïcödé";
    let v = chars_of(text);
    assert_eq!(v, chars(text));
    assert_eq!(string_of(&v), text);
    assert_eq!(string_of_range(&v, 5, 8), "{a}");
    assert_eq!(string_of_range(&v, 3, 3), "");
}

#[test]
fn chars_are_compares_whole_texts() {
    assert!(chars_are(&chars("mp3"), "mp3"));
    assert!(!chars_are(&chars("mp3"), "mp4"));
    assert!(!chars_are(&chars("mp3"), "mp"));
    assert!(!chars_are(&chars("mp"), "mp3"));
    assert!(chars_are(&chars(""), ""));
}

#[test]
fn strict_numbers_are_digits_only() {
    assert_eq!(parse_number_strict("12"), Some(12));
    assert_eq!(parse_number_strict("0"), Some(0));
    assert_eq!(parse_number_strict("007"), Some(7));
    assert_eq!(parse_number_strict("4294967295"), Some(4294967295));
    assert_eq!(parse_number_strict("00000000000000000000000000000042"), Some(42));
    assert_eq!(parse_number_strict(""), None);
    assert_eq!(parse_number_strict("+5"), None);
    assert_eq!(parse_number_strict("-5"), None);
    assert_eq!(parse_number_strict("12a"), None);
    assert_eq!(parse_number_strict(" 12"), None);
    assert_eq!(parse_number_strict("1_000"), None);
    assert_eq!(parse_number_strict("٣"), None);
}

#[test]
fn strict_numbers_must_fit_32_bits() {
    assert_eq!(parse_number_strict("4294967296"), None);
    assert_eq!(parse_number_strict("99999999999"), None);
    assert_eq!(parse_number_strict("18446744073709551616"), None);
    assert_eq!(parse_number_strict("99999999999999999999999999999999999999999"), None);
    assert_eq!(parse_number_strict("4294967296x"), None);
}

#[test]
fn lenient_numbers_allow_one_plus() {
    assert_eq!(parse_number("+5"), Some(5));
    assert_eq!(parse_number("5"), Some(5));
    assert_eq!(parse_number("+007"), Some(7));
    assert_eq!(parse_number("+"), None);
    assert_eq!(parse_number("++1"), None);
    assert_eq!(parse_number("5+"), None);
    assert_eq!(parse_number(""), None);
    assert_eq!(parse_number("-0"), None);
}

#[test]
fn lenient_numbers_read_as_the_standard_library_does() {
    let samples = [
        "", "0", "1", "07", "+", "+0", "+12", "++12", "-1", "-0", "12 ", " 12", "1.5", "1e3",
        "4294967295", "4294967296", "+4294967295", "+4294967296", "000000000000004294967295",
        "abc", "${1}", "١٢", "12x", "x12", "99999999999999999999",
    ];
    for s in samples {
        assert_eq!(parse_number(s), s.parse::<u32>().ok(), "for {:?}", s);
    }
}

#[test]
fn decimal_numerals_have_no_leading_zeros() {
    for n in [0usize, 1, 7, 9, 10, 11, 99, 100, 101, 12345, 1000000, usize::MAX] {
        let mut out = chars("x");
        push_decimal(n, &mut out);
        assert_eq!(string_of(&out), format!("x{}", n));
    }
}

#[test]
fn numeral_read_back_gives_the_number() {
    for n in [0u32, 1, 9, 10, 4096, 65535, 65536, 4294967295] {
        let mut out = Vec::new();
        push_decimal(n as usize, &mut out);
        assert_eq!(parse_number_strict(&string_of(&out)), Some(n));
        assert_eq!(parse_number(&string_of(&out)), Some(n));
    }
}

#[test]
fn replace_finds_occurrences_left_to_right() {
    assert_eq!(replace_text("a${1}b${1}", &chars("${1}"), &chars("X")), "aXbX");
    assert_eq!(replace_text("${1}", &chars("${1}"), &chars("")), "");
    assert_eq!(replace_text("aaa", &chars("aa"), &chars("X")), "Xa");
    assert_eq!(replace_text("aaaa", &chars("aa"), &chars("X")), "XX");
    assert_eq!(replace_text("abc", &chars("abcd"), &chars("X")), "abc");
    assert_eq!(replace_text("", &chars("a"), &chars("X")), "");
    assert_eq!(replace_text("a—b", &chars("—"), &chars("-")), "a-b");
}

#[test]
fn replace_does_not_search_what_it_put_in() {
    assert_eq!(replace_text("aXb", &chars("X"), &chars("XX")), "aXXb");
    assert_eq!(replace_text("ab", &chars("b"), &chars("ab")), "aab");
}

#[test]
fn replace_with_empty_pattern_changes_nothing() {
    assert_eq!(replace_text("abc", &chars(""), &chars("X")), "abc");
    assert_eq!(replace_in(&chars(""), &chars(""), &chars("X")), chars(""));
}

#[test]
fn replace_agrees_with_the_standard_library() {
    let cases = [
        ("${1} - ${2}", "${1}", "Foo"),
        ("${1}${1}${1}", "${1}", "${1}"),
        ("$${1}}", "${1}", ""),
        ("${10}", "${1}", "no"),
        ("ababab", "aba", "c"),
        ("títle ${2}", "${2}", "ñ"),
    ];
    for (s, pat, rep) in cases {
        assert_eq!(replace_text(s, &chars(pat), &chars(rep)), s.replace(pat, rep));
    }
}
