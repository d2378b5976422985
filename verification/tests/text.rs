use pano_monitor::text::{decimal_text, is_blank, is_white_space, joined};

#[test]
fn decimal_numbers() {
    assert_eq!(decimal_text(0), "0");
    assert_eq!(decimal_text(7), "7");
    assert_eq!(decimal_text(10), "10");
    assert_eq!(decimal_text(1234567890), "1234567890");
    assert_eq!(decimal_text(u64::MAX), "18446744073709551615");
}

#[test]
fn decimal_numbers_match_the_standard_library() {
    for n in 0..2000u64 {
        assert_eq!(decimal_text(n), format!("{}", n));
    }
}

#[test]
fn white_space_matches_the_standard_library() {
    for code in 0..=0x10ffffu32 {
        if let Some(c) = char::from_u32(code) {
            assert_eq!(is_white_space(c), c.is_whitespace(), "U+{:04X}", code);
        }
    }
}

#[test]
fn blank_input() {
    for text in ["", " ", "\t\r\n", "\u{3000}\u{a0}", "rtsp://host", "  x  ", "\u{200b}"] {
        assert_eq!(is_blank(text), text.trim().is_empty(), "{:?}", text);
    }
}

#[test]
fn joined_text() {
    assert_eq!(joined("错误：", "timeout"), "错误：timeout");
    assert_eq!(joined("", ""), "");
}
