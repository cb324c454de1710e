use channel_events::text::{decimal_text, parse_number, trim, trim_start};

#[test]
fn white_space_is_that_of_unicode() {
    for c in '\u{0}'..=char::MAX {
        let text = c.to_string();
        assert_eq!(trim(&text).is_empty(), c.is_whitespace(), "{:?}", c);
    }
}

#[test]
fn trims_like_the_standard_library() {
    for text in ["", " ", " a ", "\t\na b\r\n", "\u{3000}x\u{a0}", "x", "  é→ ", "a\u{200b}"] {
        assert_eq!(trim(text), text.trim());
        assert_eq!(trim_start(text), text.trim_start());
    }
}

#[test]
fn decimals_read_back() {
    for n in [0u64, 1, 9, 10, 11, 99, 100, 101, 1234567890, u64::MAX] {
        assert_eq!(decimal_text(n), n.to_string());
    }
    for n in 0..2000usize {
        assert_eq!(parse_number(&decimal_text(n as u64)), Some(n));
    }
    assert_eq!(parse_number(&usize::MAX.to_string()), Some(usize::MAX));
}

#[test]
fn numbers_parse_like_the_standard_library() {
    for text in [
        "", "+", "-", "0", "+0", "-0", "007", "+7", "++7", " 7", "7 ", "7_0", "1e3", "٣",
        "18446744073709551615", "18446744073709551616", "99999999999999999999", "0x10", "7+",
        "99999999999999999999x",
    ] {
        assert_eq!(parse_number(text), text.parse::<usize>().ok(), "{:?}", text);
    }
}
