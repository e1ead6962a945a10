use ekman::text::{
    char_is_digit, char_is_space, chars_of, contains_text, count_text, digit_of, digits_only,
    push_decimal, read_count, read_digits, text_of, trim_bounds, trim_text,
};

#[test]
fn counts_are_written_as_to_string_writes_them() {
    for n in [0, 1, 9, 10, 12, 100, 2_147_483_647, -1, -10, -2_147_483_648, 305, -7_001] {
        assert_eq!(count_text(n), n.to_string());
    }
}

#[test]
fn counts_are_read_as_parse_reads_them() {
    for text in [
        "0", "5", "10", "007", "+5", "-5", "-0", "+0", "2147483647", "2147483648", "-2147483648",
        "-2147483649", "", "+", "-", "--1", "+-1", "1-", " 1", "1 ", "1.0", "٣", "12a", "99999999999999999999",
    ] {
        assert_eq!(read_count(text), text.parse::<i32>().ok(), "{}", text);
    }
    assert_eq!(read_count("10"), Some(10));
    assert_eq!(read_count(""), None);
}

#[test]
fn reading_what_was_written_gives_the_count_back() {
    for n in [0, 7, -7, 2_147_483_647, -2_147_483_648, 1_000_000] {
        assert_eq!(read_count(&count_text(n)), Some(n));
    }
}

#[test]
fn decimals_are_appended() {
    let mut out = String::from("n=");
    push_decimal(&mut out, 0);
    push_decimal(&mut out, 42);
    push_decimal(&mut out, u64::MAX);
    assert_eq!(out, "n=04218446744073709551615");
}

#[test]
fn digits_are_the_ten_ascii_digits() {
    for (d, ch) in "0123456789".chars().enumerate() {
        assert_eq!(digit_of(d as u8), ch);
        assert!(char_is_digit(ch));
    }
    for ch in ['/', ':', 'a', ' ', '٣', '.'] {
        assert!(!char_is_digit(ch));
    }
}

#[test]
fn runs_of_digits_are_read_within_a_limit() {
    assert_eq!(read_digits("ab123cd", 2, 5, 999), Some(123));
    assert_eq!(read_digits("ab123cd", 2, 5, 122), None);
    assert_eq!(read_digits("ab123cd", 2, 6, 99_999), None);
    assert_eq!(read_digits("ab123cd", 3, 3, 0), Some(0));
    assert_eq!(read_digits("000000000000000000000000000001", 0, 30, 1), Some(1));
    assert!(digits_only("ab123cd", 2, 5));
    assert!(!digits_only("ab123cd", 1, 5));
    assert!(digits_only("ab123cd", 4, 4));
}

#[test]
fn white_space_is_what_unicode_calls_white_space() {
    for code in 0..=0x10FFFF_u32 {
        if let Some(ch) = char::from_u32(code) {
            assert_eq!(char_is_space(ch), ch.is_whitespace(), "{:x}", code);
        }
    }
}

#[test]
fn trimming_drops_white_space_at_both_ends() {
    for text in [
        "", " ", "a", " a", "a ", "  a b  ", "\t\r\n x \u{a0}\u{3000}", "\u{2003}é\u{85}", "   ",
        "a\u{200b}", "\u{feff}a", "no space", " \u{1680} ",
    ] {
        assert_eq!(trim_text(text), text.trim(), "{:?}", text);
    }
    let chars: Vec<char> = "  ab ".chars().collect();
    assert_eq!(trim_bounds(&chars), (2, 4));
    let blank: Vec<char> = "   ".chars().collect();
    assert_eq!(trim_bounds(&blank), (3, 0));
}

#[test]
fn a_text_stands_in_another_character_for_character() {
    let texts = ["", "a", "ab", "ba", "aab", "abab", "é", "日本語", "本", "bench press", "press", "PRESS", "ss ", "x"];
    for hay in texts {
        for needle in texts {
            assert_eq!(contains_text(hay, needle), hay.contains(needle), "{:?} in {:?}", needle, hay);
        }
    }
}

#[test]
fn texts_and_characters_convert_both_ways() {
    for text in ["", "abc", "é日\u{1f600}x"] {
        let chars = chars_of(text);
        assert_eq!(chars, text.chars().collect::<Vec<char>>());
        assert_eq!(text_of(&chars, 0, chars.len()), text);
    }
    let chars = chars_of("hello");
    assert_eq!(text_of(&chars, 1, 3), "el");
    assert_eq!(text_of(&chars, 2, 2), "");
}
