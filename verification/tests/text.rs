use network_launcher::text::{char_is_digit, char_is_white_space, chars_of, decimal_text};

#[test]
fn decimal_of_small_numbers() {
    assert_eq!(decimal_text(0), "0");
    assert_eq!(decimal_text(7), "7");
    assert_eq!(decimal_text(10), "10");
    assert_eq!(decimal_text(65535), "65535");
}

#[test]
fn decimal_of_large_numbers() {
    assert_eq!(decimal_text(2592000), "2592000");
    assert_eq!(decimal_text(u64::MAX), "18446744073709551615");
}

#[test]
fn decimal_agrees_with_the_standard_library() {
    let mut n: u64 = 0;
    while n < 100_000 {
        assert_eq!(decimal_text(n), n.to_string());
        n += 1;
    }
}

#[test]
fn white_space_agrees_with_the_standard_library() {
    let mut code: u32 = 0;
    while code <= 0x10FFFF {
        if let Some(c) = char::from_u32(code) {
            assert_eq!(char_is_white_space(c), c.is_whitespace(), "U+{:04X}", code);
        }
        code += 1;
    }
}

#[test]
fn digits_are_the_ten_ascii_digits() {
    let mut code: u32 = 0;
    while code <= 0x10FFFF {
        if let Some(c) = char::from_u32(code) {
            assert_eq!(char_is_digit(c), c.is_ascii_digit(), "U+{:04X}", code);
        }
        code += 1;
    }
}

#[test]
fn chars_come_in_order() {
    assert_eq!(chars_of("a\u{00e9}\u{3000}z"), vec!['a', '\u{00e9}', '\u{3000}', 'z']);
    assert_eq!(chars_of(""), Vec::<char>::new());
}
