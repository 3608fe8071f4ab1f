use whispr::text::{ascii_punctuation, chars_of, push_decimal, trim, white_space};

#[test]
fn white_space_matches_std_for_every_char() {
    for u in 0u32..=0x10FFFF {
        if let Some(c) = char::from_u32(u) {
            assert_eq!(white_space(c), c.is_whitespace(), "U+{:04X}", u);
        }
    }
}

#[test]
fn ascii_punctuation_matches_std_for_every_char() {
    for u in 0u32..=0x10FFFF {
        if let Some(c) = char::from_u32(u) {
            assert_eq!(ascii_punctuation(c), c.is_ascii_punctuation(), "U+{:04X}", u);
        }
    }
}

#[test]
fn trim_matches_std() {
    let cases = [
        "",
        " ",
        "abc",
        "  abc  ",
        "\t\n a b \r\n",
        "\u{3000}全角\u{3000}",
        "\u{a0}x\u{2028}",
        "\u{85}\u{200b}\u{85}",
        "a\u{2009}",
        "   \u{1680}  ",
    ];
    for s in cases {
        assert_eq!(trim(s), s.trim(), "{:?}", s);
    }
}

#[test]
fn chars_in_order() {
    assert_eq!(chars_of("añb🎙"), vec!['a', 'ñ', 'b', '🎙']);
    assert!(chars_of("").is_empty());
}

#[test]
fn decimal_like_format() {
    for n in [0u64, 7, 10, 99, 404, 65535, 1_000_000, u64::MAX] {
        let mut s = "x".to_string();
        push_decimal(&mut s, n);
        assert_eq!(s, format!("x{n}"));
    }
}
