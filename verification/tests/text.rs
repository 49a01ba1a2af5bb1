//! Hexadecimal, decimal and white space.
use rustpush::text::{
    before_white_space, decimal_text, encode_hex, encode_hex_upper, is_white_space, trim,
};
use rustpush::udid::{generate_udid, is_openbubbles_shaped_udid};

#[test]
fn hexadecimal_has_two_digits_per_byte() {
    assert_eq!(encode_hex(&[]), "");
    assert_eq!(encode_hex(&[0x00, 0x0f, 0xa5, 0xff]), "000fa5ff");
    assert_eq!(encode_hex_upper(&[0x00, 0x0f, 0xa5, 0xff]), "000FA5FF");
    let all: Vec<u8> = (0..=255).collect();
    let lower: String = all.iter().map(|b| format!("{b:02x}")).collect();
    let upper: String = all.iter().map(|b| format!("{b:02X}")).collect();
    assert_eq!(encode_hex(&all), lower);
    assert_eq!(encode_hex_upper(&all), upper);
}

#[test]
fn decimal_has_no_leading_zeros() {
    for n in [0u64, 9, 10, 19, 100, 1640, 18446744073709551615] {
        assert_eq!(decimal_text(n), n.to_string());
    }
}

#[test]
fn white_space_is_that_of_unicode() {
    for u in 0..=0x10ffffu32 {
        if let Some(c) = char::from_u32(u) {
            assert_eq!(is_white_space(c), c.is_whitespace(), "U+{u:04X}");
        }
    }
}

#[test]
fn first_word_ends_at_any_white_space() {
    assert_eq!(before_white_space("a b c"), Some("a".to_string()));
    assert_eq!(before_white_space(" b"), Some("".to_string()));
    assert_eq!(before_white_space("a\u{3000}b"), Some("a".to_string()));
    assert_eq!(before_white_space("é\tx"), Some("é".to_string()));
    assert_eq!(before_white_space("a "), Some("a".to_string()));
    assert_eq!(before_white_space("abc"), None);
    assert_eq!(before_white_space(""), None);
}

#[test]
fn a_generated_udid_does_not_need_another() {
    for _ in 0..100 {
        assert!(is_openbubbles_shaped_udid(&generate_udid()));
    }
}

#[test]
fn trimming_takes_the_white_space_at_both_ends() {
    for s in ["", " ", "\u{3000}\t\n", "a", " a", "a ", " a b\u{a0}", "\u{85}é ü\u{2028}\r\n", "  \u{200b} "] {
        assert_eq!(trim(s), s.trim(), "{s:?}");
    }
}
