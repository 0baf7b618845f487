use oido::text::{
    contains, decimal_text, ends_with, is_before, join, parse_number, segment_of, split_at_commas,
    starts_with, strip_prefix, text_eq, to_ascii_lower, trim_end_text, trim_start_text, trim_text,
    white_space, NumberFault,
};

const TEXTS: [&str; 12] = [
    "",
    " ",
    "a",
    "ab",
    "b",
    "Hola, mundo",
    "  Hola \t\n",
    "\u{a0}ñandú\u{3000}",
    "ÑANDÚ",
    "a,,b,",
    "𝄞 clef",
    "z\u{10ffff}",
];

#[test]
fn white_space_is_that_of_unicode() {
    for c in (0..=0x10_ffffu32).filter_map(char::from_u32) {
        assert_eq!(white_space(c), c.is_whitespace(), "{c:?}");
    }
}

#[test]
fn texts_are_trimmed_at_both_ends() {
    for s in TEXTS {
        assert_eq!(trim_text(s), s.trim());
        assert_eq!(trim_start_text(s), s.trim_start());
        assert_eq!(trim_end_text(s), s.trim_end());
        assert_eq!(to_ascii_lower(s), s.to_ascii_lowercase());
    }
}

#[test]
fn texts_stand_in_alphabetical_order() {
    for a in TEXTS {
        for b in TEXTS {
            assert_eq!(is_before(a, b), a < b, "{a:?} {b:?}");
            assert_eq!(text_eq(a, b), a == b);
            assert_eq!(starts_with(a, b), a.starts_with(b));
            assert_eq!(ends_with(a, b), a.ends_with(b));
            assert_eq!(contains(a, b), a.contains(b));
            assert_eq!(strip_prefix(a, b).as_deref(), a.strip_prefix(b));
        }
    }
}

#[test]
fn lists_are_split_and_joined() {
    for s in TEXTS {
        let parts = split_at_commas(s);
        let expected: Vec<String> = s.split(',').map(str::to_string).collect();
        assert_eq!(parts, expected);
        assert_eq!(join(&parts, ","), s);
    }
    assert_eq!(join(&Vec::new(), ", "), "");
}

#[test]
fn numbers_are_read_and_written() {
    for n in [0u64, 7, 10, 99, 100, 12_345, u64::MAX] {
        assert_eq!(decimal_text(n), n.to_string());
        assert_eq!(parse_number(&n.to_string()), Ok(n as usize));
    }
    assert_eq!(parse_number("+7"), Ok(7));
    assert_eq!(parse_number("007"), Ok(7));
    assert_eq!(parse_number("+"), Err(NumberFault::InvalidDigit));
    assert_eq!(parse_number("-1"), Err(NumberFault::InvalidDigit));
    assert_eq!(parse_number("12a"), Err(NumberFault::InvalidDigit));
    assert_eq!(parse_number("99999999999999999999"), Err(NumberFault::TooLarge));
}

#[test]
fn a_segment_ends_at_a_dash_or_an_underscore() {
    assert_eq!(segment_of("es_MX-ald"), "es");
    assert_eq!(segment_of("en-US"), "en");
    assert_eq!(segment_of("fr"), "fr");
}
