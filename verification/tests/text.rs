use jorik_cli::text::{
    char_is_whitespace, chars_of, concat2, concat3, contains, decimal_string, flag_str, parse_i64,
    push_decimal, push_decimal_padded, push_repeated, signed_decimal_string, str_eq, string_of,
    string_of_range, trim, trim_end_char,
};

#[test]
fn chars_round_trip() {
    let v = chars_of("a\u{44b}b");
    assert_eq!(v, vec!['a', '\u{44b}', 'b']);
    assert_eq!(string_of(&v), "a\u{44b}b");
    assert_eq!(string_of_range(&v, 1, 3), "\u{44b}b");
    assert_eq!(string_of_range(&v, 2, 2), "");
    assert!(chars_of("").is_empty());
}

#[test]
fn trim_end_char_removes_the_whole_run() {
    assert_eq!(trim_end_char("http://host///", '/'), "http://host");
    assert_eq!(trim_end_char("http://host", '/'), "http://host");
    assert_eq!(trim_end_char("///", '/'), "");
    assert_eq!(trim_end_char("", '/'), "");
    assert_eq!(trim_end_char("a/b/", '/'), "a/b");
}

#[test]
fn trim_removes_white_space_at_both_ends() {
    assert_eq!(trim("  tok en \n"), "tok en");
    assert_eq!(trim("\t\r\n "), "");
    assert_eq!(trim(""), "");
    assert_eq!(trim("x"), "x");
    assert_eq!(trim("\u{a0}x\u{3000}"), "x");
    for s in ["  a b ", "\nabc", "abc\r\n", " ", "a"] {
        assert_eq!(trim(s), s.trim());
    }
}

#[test]
fn contains_finds_a_run_of_characters() {
    assert!(contains("error: guild_id is required here", "guild_id is required"));
    assert!(contains("guild_id is required", "guild_id is required"));
    assert!(!contains("guild_id is require", "guild_id is required"));
    assert!(contains("abc", ""));
    assert!(contains("", ""));
    assert!(!contains("", "a"));
    assert!(contains("aab", "ab"));
    assert!(!contains("abab", "bb"));
}

#[test]
fn numbers_are_written_in_decimal() {
    assert_eq!(decimal_string(0), "0");
    assert_eq!(decimal_string(7), "7");
    assert_eq!(decimal_string(10), "10");
    assert_eq!(decimal_string(199500), "199500");
    assert_eq!(decimal_string(u64::MAX), u64::MAX.to_string());
    assert_eq!(signed_decimal_string(-200), "-200");
    assert_eq!(signed_decimal_string(200), "200");
    assert_eq!(signed_decimal_string(0), "0");
    assert_eq!(signed_decimal_string(i64::MIN), i64::MIN.to_string());
    assert_eq!(signed_decimal_string(i64::MAX), i64::MAX.to_string());
    let mut s = String::from("n=");
    push_decimal(&mut s, 42);
    assert_eq!(s, "n=42");
}

#[test]
fn padded_numbers_have_at_least_the_width() {
    let mut s = String::new();
    push_decimal_padded(&mut s, 5, 2, '0');
    s.push(':');
    push_decimal_padded(&mut s, 12, 2, '0');
    s.push(':');
    push_decimal_padded(&mut s, 123, 2, '0');
    s.push(':');
    push_decimal_padded(&mut s, 7, 3, ' ');
    assert_eq!(s, "05:12:123:  7");
    assert_eq!(s, format!("{:02}:{:02}:{:02}:{:3}", 5, 12, 123, 7));
}

#[test]
fn repeated_text() {
    let mut s = String::from("[");
    push_repeated(&mut s, "ab", 3);
    push_repeated(&mut s, "x", 0);
    assert_eq!(s, "[ababab");
}

#[test]
fn parse_i64_reads_what_rust_reads() {
    for s in [
        "0", "7", "-7", "+7", "200", "-200", "007", "-0", "9223372036854775807",
        "-9223372036854775808", "9223372036854775808", "-9223372036854775809",
        "99999999999999999999999", "", "-", "+", "--1", "1-", " 1", "1 ", "1.0", "a", "12a",
        "\u{661}",
    ] {
        assert_eq!(parse_i64(s), s.parse::<i64>().ok(), "for {:?}", s);
    }
    assert_eq!(parse_i64("-200"), Some(-200));
    assert_eq!(parse_i64("12x"), None);
}

#[test]
fn joining_texts_and_flags() {
    assert_eq!(concat2("ab", "cd"), "abcd");
    assert_eq!(concat3("a", "", "c"), "ac");
    assert_eq!(flag_str(true), "true");
    assert_eq!(flag_str(false), "false");
}

#[test]
fn white_space_is_what_the_standard_library_calls_white_space() {
    let mut count = 0;
    for code in 0..=0x10ffffu32 {
        if let Some(c) = char::from_u32(code) {
            assert_eq!(char_is_whitespace(c), c.is_whitespace(), "U+{:04X}", code);
            if char_is_whitespace(c) {
                count += 1;
            }
        }
    }
    assert_eq!(count, 25);
    assert!(char_is_whitespace(' ') && char_is_whitespace('\r') && char_is_whitespace('\u{3000}'));
    assert!(!char_is_whitespace('a') && !char_is_whitespace('\u{200b}'));
}

#[test]
fn texts_are_equal_when_their_characters_are() {
    assert!(str_eq("", ""));
    assert!(str_eq("queue_update", "queue_update"));
    assert!(str_eq("\u{44b}\u{1f3b6}", "\u{44b}\u{1f3b6}"));
    assert!(!str_eq("queue_update", "queue_updatE"));
    assert!(!str_eq("a", "ab"));
    assert!(!str_eq("ab", "a"));
    assert!(!str_eq("", "a"));
    assert!(!str_eq("\u{e9}", "e\u{301}"));
}
