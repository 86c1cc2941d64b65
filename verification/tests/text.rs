use openvpn3_gui::text::{
    chars_of, contains, decimal, fold_chars, join, lines, lower_char, occurs_in, only_ascii,
    parse_u64, trim, two_digits, white_space,
};

const SAMPLES: [&str; 24] = [
    "",
    " ",
    "a",
    "\n",
    "\r",
    "\r\n",
    "a\n",
    "a\r",
    "a\r\n",
    "a\n\nb",
    "a\r\n\r\nb\r",
    "\na",
    "\r\r\na\n\r",
    "  padded\t\n",
    "\u{00A0}\u{3000}x y\u{2028}\u{0085}",
    "\u{200B}zero width\u{200B}",
    "\u{001C}\u{001F}sep",
    "one\ntwo\nthree",
    "+12",
    "0042",
    "18446744073709551615",
    "18446744073709551616",
    "١٢٣",
    "time=1.5 ms",
];

#[test]
fn numbers_are_written_in_decimal() {
    assert_eq!(decimal(0), "0");
    assert_eq!(decimal(9), "9");
    assert_eq!(decimal(10), "10");
    assert_eq!(decimal(1772584), "1772584");
    assert_eq!(decimal(u64::MAX), "18446744073709551615");
}

#[test]
fn two_places_are_zero_filled() {
    assert_eq!(two_digits(0), "00");
    assert_eq!(two_digits(7), "07");
    assert_eq!(two_digits(10), "10");
    assert_eq!(two_digits(59), "59");
    assert_eq!(two_digits(123), "123");
}

#[test]
fn lines_are_joined_with_the_separator_between() {
    assert_eq!(join(&Vec::new(), "\n"), "");
    assert_eq!(join(&vec!["a".to_string()], "\n"), "a");
    assert_eq!(
        join(&vec!["a".to_string(), "".to_string(), "c".to_string()], ", "),
        "a, , c"
    );
}

#[test]
fn decimal_numbers_are_read() {
    assert_eq!(parse_u64("0"), Some(0));
    assert_eq!(parse_u64("1772584"), Some(1772584));
    assert_eq!(parse_u64("+7"), Some(7));
    assert_eq!(parse_u64("007"), Some(7));
    assert_eq!(parse_u64("18446744073709551615"), Some(u64::MAX));
    assert_eq!(parse_u64("18446744073709551616"), None);
    assert_eq!(parse_u64("99999999999999999999999999"), None);
    assert_eq!(parse_u64(""), None);
    assert_eq!(parse_u64("+"), None);
    assert_eq!(parse_u64("++1"), None);
    assert_eq!(parse_u64("-1"), None);
    assert_eq!(parse_u64(" 1"), None);
    assert_eq!(parse_u64("1 "), None);
    assert_eq!(parse_u64("1_000"), None);
    assert_eq!(parse_u64("١٢٣"), None);
}

#[test]
fn decimal_numbers_are_read_as_the_standard_library_reads_them() {
    for sample in SAMPLES {
        assert_eq!(parse_u64(sample), sample.parse::<u64>().ok(), "{:?}", sample);
    }
    for n in [0u64, 1, 9, 10, 255, 65536, u64::MAX / 10, u64::MAX - 1, u64::MAX] {
        assert_eq!(parse_u64(&n.to_string()), Some(n));
        assert_eq!(parse_u64(&decimal(n)), Some(n));
    }
}

#[test]
fn white_space_is_the_unicode_property() {
    for code in 0..=0x10FFFFu32 {
        if let Some(c) = char::from_u32(code) {
            assert_eq!(white_space(c), c.is_whitespace(), "U+{:04X}", code);
        }
    }
}

#[test]
fn trimming_drops_the_white_space_at_both_ends() {
    assert_eq!(trim("  a b \n"), "a b");
    assert_eq!(trim("\t\r\n"), "");
    assert_eq!(trim(""), "");
    assert_eq!(trim("x"), "x");
    assert_eq!(trim("\u{3000}é\u{00A0}"), "é");
    for sample in SAMPLES {
        assert_eq!(trim(sample), sample.trim(), "{:?}", sample);
    }
}

#[test]
fn lines_end_at_line_feeds() {
    assert_eq!(lines("a\nb"), vec!["a", "b"]);
    assert_eq!(lines("a\r\nb\n"), vec!["a", "b"]);
    assert_eq!(lines("a\n\nb"), vec!["a", "", "b"]);
    assert_eq!(lines("a\r"), vec!["a\r"]);
    assert_eq!(lines("\n"), vec![""]);
    assert_eq!(lines(""), Vec::<String>::new());
    for sample in SAMPLES {
        let expected: Vec<String> = sample.lines().map(|l| l.to_string()).collect();
        assert_eq!(lines(sample), expected, "{:?}", sample);
    }
}

#[test]
fn containment_is_by_consecutive_characters() {
    assert!(contains("Client connected, stats", "connected"));
    assert!(contains("abc", ""));
    assert!(contains("", ""));
    assert!(!contains("", "a"));
    assert!(!contains("abc", "ac"));
    assert!(!contains("abc", "abcd"));
    assert!(contains("aab", "ab"));
    assert!(contains("é→b", "→"));
    for hay in SAMPLES {
        for needle in SAMPLES {
            assert_eq!(contains(hay, needle), hay.contains(needle), "{:?} {:?}", hay, needle);
        }
    }
    assert!(occurs_in(&chars_of("abc"), &chars_of("bc")));
    assert!(!occurs_in(&chars_of("abc"), &chars_of("cb")));
}

#[test]
fn ascii_letters_are_folded_and_the_rest_kept() {
    assert_eq!(lower_char('A'), 'a');
    assert_eq!(lower_char('Z'), 'z');
    assert_eq!(lower_char('a'), 'a');
    assert_eq!(lower_char('@'), '@');
    assert_eq!(lower_char('['), '[');
    assert_eq!(lower_char('É'), 'É');
    assert_eq!(fold_chars(&chars_of("AUTH_Failed É")), chars_of("auth_failed É"));
    for code in 0..128u32 {
        let c = char::from_u32(code).unwrap();
        assert_eq!(lower_char(c), c.to_ascii_lowercase());
        assert_eq!(lower_char(c).to_string(), c.to_string().to_lowercase());
    }
    assert!(only_ascii(&chars_of("plain text\n")));
    assert!(only_ascii(&chars_of("")));
    assert!(!only_ascii(&chars_of("Büro")));
}
