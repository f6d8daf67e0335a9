use sala::text::{
    chars_of, decimal_text, hex_text, parse_index, signed_decimal_text, split_words,
};

#[test]
fn decimal_text_writes_plain_numerals() {
    assert_eq!(decimal_text(0), "0");
    assert_eq!(decimal_text(7), "7");
    assert_eq!(decimal_text(10), "10");
    assert_eq!(decimal_text(512), "512");
    assert_eq!(decimal_text(1_000_000), "1000000");
    assert_eq!(decimal_text(u128::MAX), "340282366920938463463374607431768211455");
}

#[test]
fn signed_decimal_text_writes_the_sign() {
    assert_eq!(signed_decimal_text(0), "0");
    assert_eq!(signed_decimal_text(3), "3");
    assert_eq!(signed_decimal_text(-1), "-1");
    assert_eq!(signed_decimal_text(i32::MAX), "2147483647");
    assert_eq!(signed_decimal_text(i32::MIN), "-2147483648");
    for n in [-1000, -99, -10, 9, 10, 99, 100, 255, 65535] {
        assert_eq!(signed_decimal_text(n), n.to_string());
    }
}

#[test]
fn hex_text_writes_two_digits_a_byte() {
    assert_eq!(hex_text(&[]), "");
    assert_eq!(hex_text(&[0]), "00");
    assert_eq!(hex_text(&[0x00, 0x0f, 0xab]), "000fab");
    assert_eq!(hex_text(&[0, 1, 15, 16, 255]), "00010f10ff");
    assert_eq!(hex_text(&[0x01, 0x11]), "0111");
    assert_eq!(hex_text(&[0x11, 0x01]), "1101");
    let all: Vec<u8> = (0..=255).collect();
    let expected: String = all.iter().map(|b| format!("{:02x}", b)).collect();
    assert_eq!(hex_text(&all), expected);
    assert_eq!(hex_text(&all).len(), 512);
}

#[test]
fn parse_index_reads_what_usize_reads() {
    assert_eq!(parse_index("0"), Some(0));
    assert_eq!(parse_index("17"), Some(17));
    assert_eq!(parse_index("+17"), Some(17));
    assert_eq!(parse_index("007"), Some(7));
    assert_eq!(parse_index(""), None);
    assert_eq!(parse_index("+"), None);
    assert_eq!(parse_index("-"), None);
    assert_eq!(parse_index("-1"), None);
    assert_eq!(parse_index("++1"), None);
    assert_eq!(parse_index("1+"), None);
    assert_eq!(parse_index(" 1"), None);
    assert_eq!(parse_index("1 "), None);
    assert_eq!(parse_index("1_000"), None);
    assert_eq!(parse_index("12a"), None);
    assert_eq!(parse_index("٣"), None);
    assert_eq!(parse_index(&usize::MAX.to_string()), Some(usize::MAX));
    assert_eq!(parse_index("18446744073709551616"), "18446744073709551616".parse::<usize>().ok());
    assert_eq!(parse_index("99999999999999999999999999999999999999999"), None);
    for text in ["0", "+0", "42", "+", "", "x", "4 2", "00000000000000000000000001"] {
        assert_eq!(parse_index(text), text.parse::<usize>().ok());
    }
}

#[test]
fn split_words_splits_at_white_space() {
    let none: Vec<String> = Vec::new();
    assert_eq!(split_words(""), none);
    assert_eq!(split_words(" \t\n"), none);
    assert_eq!(split_words("one"), vec!["one"]);
    assert_eq!(split_words("  one  two\tthree\n"), vec!["one", "two", "three"]);
    assert_eq!(split_words("a\u{a0}b\u{2003}c\u{3000}d"), vec!["a", "b", "c", "d"]);
    assert_eq!(split_words("zero\u{200b}width"), vec!["zero\u{200b}width"]);
    for text in ["x  y", " pässwörd ✓ ", "\r\n a \u{85} b", "tab\tseparated\tvalues"] {
        let expected: Vec<String> = text.split_whitespace().map(String::from).collect();
        assert_eq!(split_words(text), expected);
    }
}

#[test]
fn chars_of_gives_the_characters() {
    assert_eq!(chars_of(""), Vec::<char>::new());
    assert_eq!(chars_of("aä✓"), vec!['a', 'ä', '✓']);
}

#[test]
fn is_white_space_agrees_with_the_standard_library_on_every_character() {
    let mut white = 0;
    for n in 0..=0x10ffffu32 {
        if let Some(c) = char::from_u32(n) {
            assert_eq!(sala::text::is_white_space(c), c.is_whitespace(), "U+{:04X}", n);
            if c.is_whitespace() {
                white += 1;
            }
        }
    }
    assert_eq!(white, 25);
}
