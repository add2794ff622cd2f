use wttrbar::floats::{is_float_text, is_whitespace_char};
use wttrbar::numeric::{parse_i32_chars, parse_u32_chars};
use wttrbar::text::replace_all;

fn chars(s: &str) -> Vec<char> {
    s.chars().collect()
}

const SAMPLES: &[&str] = &[
    "", "0", "1", "+1", "-1", "+", "-", "++1", "1.", ".5", ".", "1.5", "1..5", "1.2.3", "1e5",
    "1E5", "1e", "1e+", "1e-3", "1e+3", "e5", ".e5", "1.e5", ".5e5", "5e5.0", "inf", "INF",
    "Inf", "+inf", "-inf", "infinity", "-Infinity", "infinit", "nan", "NaN", "-nan", "nana",
    " 1", "1 ", "1_000", "0x10", "١", "４", "00", "007", "4294967295", "4294967296",
    "-2147483648", "-2147483649", "2147483647", "2147483648", "+0", "-0", "12a", "a12",
    "99999999999999999999999", "1e400", "1.7976931348623157e308",
];

#[test]
fn float_grammar_agrees_with_f64_from_str() {
    for s in SAMPLES {
        assert_eq!(is_float_text(&chars(s)), s.parse::<f64>().is_ok(), "on {:?}", s);
    }
}

#[test]
fn u32_parsing_agrees_with_from_str() {
    for s in SAMPLES {
        assert_eq!(parse_u32_chars(&chars(s)), s.parse::<u32>().ok(), "on {:?}", s);
    }
}

#[test]
fn i32_parsing_agrees_with_from_str() {
    for s in SAMPLES {
        assert_eq!(parse_i32_chars(&chars(s)), s.parse::<i32>().ok(), "on {:?}", s);
    }
}

#[test]
fn whitespace_agrees_with_char_is_whitespace() {
    for u in 0u32..=0x10FFFF {
        if let Some(c) = char::from_u32(u) {
            assert_eq!(is_whitespace_char(c), c.is_whitespace(), "on U+{:04X}", u);
        }
    }
}

#[test]
fn replace_all_agrees_with_str_replace() {
    let cases = [
        ("{temp_C}°C", "{temp_C}", "21"),
        ("aaaa", "aa", "b"),
        ("abcabc", "bc", "{bc}"),
        ("", "x", "y"),
        ("no match", "zz", "y"),
        ("ééé", "é", "e"),
    ];
    for (s, p, r) in cases {
        assert_eq!(replace_all(s, p, r), s.replace(p, r), "on {:?}", (s, p, r));
    }
}
