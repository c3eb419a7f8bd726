use amalgam::text::{
    is_blank, is_white_space, join, parse_signed, parse_unsigned, push_decimal, push_hex, to_chars,
    without_prefix,
};

#[test]
fn white_space_is_what_the_standard_library_takes_it_for() {
    for code in 0..=0x10ffffu32 {
        if let Some(c) = char::from_u32(code) {
            assert_eq!(is_white_space(c), c.is_whitespace(), "{code:x}");
        }
    }
}

#[test]
fn blank_text_is_what_trims_to_nothing() {
    for s in ["", " ", "\t\n ", "\u{2003}", " x ", "x", "\u{200b}"] {
        assert_eq!(is_blank(s), s.trim().is_empty(), "{s:?}");
    }
}

#[test]
fn decimals_agree_with_formatting() {
    for n in [0i64, 7, 10, 99, 100, -1, -10, 123_456_789, i64::MAX, i64::MIN] {
        let mut out = String::from("n=");
        push_decimal(&mut out, n);
        assert_eq!(out, format!("n={n}"));
    }
}

#[test]
fn signed_numbers_agree_with_parsing() {
    let cases = [
        "", "0", "-0", "+0", "+", "-", "12", "-12", "+12", " 12", "12 ", "1_2", "--1", "+-1",
        "9223372036854775807", "9223372036854775808", "-9223372036854775808",
        "-9223372036854775809", "00000000000000000000000000000007", "99999999999999999999999999",
        "x", "1x", "\u{661}",
    ];
    for s in cases {
        let chars = to_chars(s);
        assert_eq!(
            parse_signed(&chars, 0, chars.len()),
            s.parse::<i64>().ok(),
            "{s:?}"
        );
    }
}

#[test]
fn unsigned_numbers_agree_with_parsing() {
    for s in [
        "", "0", "+0", "-0", "+", "255", "256", "+255", "0255", "1 ", "99999999999999999999999",
    ] {
        let chars = to_chars(s);
        assert_eq!(
            parse_unsigned(&chars, 0, chars.len(), 255),
            s.parse::<u8>().ok().map(u64::from),
            "{s:?}"
        );
    }
}

#[test]
fn numbers_are_read_from_the_middle() {
    let chars = to_chars("a|-42|b");
    assert_eq!(parse_signed(&chars, 2, 5), Some(-42));
    assert_eq!(parse_signed(&chars, 1, 5), None);
}

#[test]
fn hexadecimals_agree_with_formatting() {
    for n in [0u64, 9, 10, 0xabcdef, u64::MAX, 0x0123_4567_89ab_cdef] {
        let mut out = String::new();
        push_hex(&mut out, n);
        assert_eq!(out, format!("{n:016x}"));
    }
}

#[test]
fn joining_and_stripping_undo_each_other() {
    let joined = join("pre:", "k\u{e9}y");
    assert_eq!(joined, "pre:k\u{e9}y");
    assert_eq!(without_prefix(&joined, "pre:"), Some("k\u{e9}y".to_owned()));
    assert_eq!(without_prefix(&joined, "pro:"), None);
    assert_eq!(without_prefix("pr", "pre:"), None);
    assert_eq!(without_prefix("same", "same"), Some(String::new()));
    assert_eq!(to_chars("a\u{1f600}b"), vec!['a', '\u{1f600}', 'b']);
}
