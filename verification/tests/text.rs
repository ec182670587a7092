use procjail::text::{
    chars_of, contains, decimal_pad2_string, decimal_string, fields, lines, parse_u32, parse_u64, split,
    starts_with, string_of, trim,
};

fn v(s: &str) -> Vec<char> {
    chars_of(s)
}

fn strings(x: Vec<Vec<char>>) -> Vec<String> {
    x.iter().map(|c| c.iter().collect()).collect()
}

#[test]
fn decimal_round_trip() {
    for n in [0u64, 7, 10, 99, 100, 65536, u64::MAX] {
        let s = decimal_string(n);
        assert_eq!(s, n.to_string());
        assert_eq!(parse_u64(&v(&s)), Some(n));
    }
    assert_eq!(decimal_pad2_string(5), "05");
    assert_eq!(decimal_pad2_string(59), "59");
    assert_eq!(decimal_pad2_string(123), "123");
}

#[test]
fn unsigned_parsing_matches_std() {
    for s in ["0", "42", "+7", "-1", "", "+", "12a", " 1", "18446744073709551615", "18446744073709551616", "007"] {
        assert_eq!(parse_u64(&v(s)), s.parse::<u64>().ok(), "{s:?}");
        assert_eq!(parse_u32(&v(s)), s.parse::<u32>().ok(), "{s:?}");
    }
    assert_eq!(parse_u32(&v("4294967295")), Some(u32::MAX));
    assert_eq!(parse_u32(&v("4294967296")), None);
}

#[test]
fn lines_fields_and_trim_match_std() {
    for s in ["a\nb", "a\r\nb\n", "\n\n", "", "x", "one two\tthree\n  four  "] {
        let ours = strings(lines(&v(s)));
        let std_lines: Vec<String> = s.lines().map(String::from).collect();
        assert_eq!(ours, std_lines, "{s:?}");
        let f = strings(fields(&v(s)));
        let std_fields: Vec<String> = s.split_whitespace().map(String::from).collect();
        assert_eq!(f, std_fields, "{s:?}");
        let t: String = trim(&v(s)).iter().collect();
        assert_eq!(t, s.trim(), "{s:?}");
    }
}

#[test]
fn split_keeps_empty_pieces() {
    assert_eq!(strings(split(&v("a::b:"), ':')), vec!["a", "", "b", ""]);
    assert_eq!(strings(split(&v(""), ':')), vec![""]);
    assert_eq!(strings(split(&v("/usr/bin"), ':')), vec!["/usr/bin"]);
}

#[test]
fn prefixes_and_substrings() {
    assert!(starts_with(&v("VmPeak: 1"), &v("VmPeak:")));
    assert!(!starts_with(&v("Vm"), &v("VmPeak:")));
    assert!(contains(&v("well ok then"), &v("ok")));
    assert!(!contains(&v("o k"), &v("ok")));
    assert_eq!(string_of(&v("h\u{e9}llo")), "h\u{e9}llo");
}

#[test]
fn whitespace_is_unicode_white_space() {
    for u in 0u32..=0x10FFFF {
        if let Some(c) = char::from_u32(u) {
            assert_eq!(procjail::text::is_whitespace(c), c.is_whitespace(), "U+{u:04X}");
        }
    }
}
