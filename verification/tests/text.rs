use resize_rs::text::{
    chars_of, parse_u32, push_decimal, push_text, spells, string_of, to_ascii_lower, to_lowered,
};

#[test]
fn characters_round_trip() {
    let chars = chars_of("héllo ×");
    assert_eq!(chars, vec!['h', 'é', 'l', 'l', 'o', ' ', '×']);
    assert_eq!(string_of(&chars), "héllo ×".to_string());
    assert_eq!(chars_of(""), Vec::<char>::new());
    assert_eq!(string_of(&Vec::new()), String::new());
}

#[test]
fn only_ascii_capitals_are_folded() {
    assert_eq!(to_ascii_lower('A'), 'a');
    assert_eq!(to_ascii_lower('Z'), 'z');
    assert_eq!(to_ascii_lower('m'), 'm');
    assert_eq!(to_ascii_lower('@'), '@');
    assert_eq!(to_ascii_lower('['), '[');
    assert_eq!(to_ascii_lower('É'), 'É');
    assert_eq!(to_ascii_lower('7'), '7');
    assert_eq!(
        string_of(&to_lowered(&chars_of("JpEG-É.9"))),
        "jpeg-É.9".to_string()
    );
    for c in ['A', 'q', 'Z', '0', '.', 'É', 'ß'] {
        assert_eq!(to_ascii_lower(c), c.to_ascii_lowercase());
    }
}

#[test]
fn spelling_compares_every_character() {
    assert!(spells(&chars_of("png"), "png"));
    assert!(!spells(&chars_of("png"), "pnG"));
    assert!(!spells(&chars_of("png"), "pn"));
    assert!(!spells(&chars_of("pn"), "png"));
    assert!(spells(&chars_of(""), ""));
}

#[test]
fn decimal_numbers_are_written_without_padding() {
    let cases: [(u128, &str); 7] = [
        (0, "0"),
        (7, "7"),
        (10, "10"),
        (340, "340"),
        (1000, "1000"),
        (4294967295, "4294967295"),
        (18446744073709551616, "18446744073709551616"),
    ];
    for (n, expected) in cases {
        let mut text = chars_of("n=");
        push_decimal(&mut text, n);
        assert_eq!(string_of(&text), format!("n={}", expected));
    }
}

#[test]
fn text_is_appended_in_order() {
    let mut text = chars_of("ab");
    push_text(&mut text, &chars_of("cd"));
    push_text(&mut text, &chars_of(""));
    push_text(&mut text, &chars_of("e"));
    assert_eq!(string_of(&text), "abcde".to_string());
}

#[test]
fn numbers_are_read_from_digits() {
    assert_eq!(parse_u32("0"), Some(0));
    assert_eq!(parse_u32("800"), Some(800));
    assert_eq!(parse_u32("007"), Some(7));
    assert_eq!(parse_u32("+42"), Some(42));
    assert_eq!(parse_u32("4294967295"), Some(u32::MAX));
}

#[test]
fn anything_but_a_number_is_refused() {
    assert_eq!(parse_u32(""), None);
    assert_eq!(parse_u32("+"), None);
    assert_eq!(parse_u32("-1"), None);
    assert_eq!(parse_u32("12a"), None);
    assert_eq!(parse_u32(" 12"), None);
    assert_eq!(parse_u32("12 "), None);
    assert_eq!(parse_u32("1.5"), None);
    assert_eq!(parse_u32("++1"), None);
    assert_eq!(parse_u32("4294967296"), None);
    assert_eq!(parse_u32("99999999999999999999999999"), None);
    assert_eq!(parse_u32("٣"), None);
}

#[test]
fn numbers_are_read_as_the_standard_library_reads_them() {
    let texts = [
        "", "0", "1", "+1", "-1", "+", "-", "00", "4294967295", "4294967296", "42949672950",
        "abc", "1e3", "0x10", "1_000", " 1", "1 ", "+0", "+-1", "١٢", "800", "600",
    ];
    for text in texts {
        assert_eq!(parse_u32(text), text.parse::<u32>().ok());
    }
}
