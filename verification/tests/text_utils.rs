use xui_offline_builder::text::{
    contains, find, lines, pad_right_str, parse_unsigned_str, split_char, trim_end_matches,
    trim_start_matches, trim_str, u64_to_string,
};

#[test]
fn decimal_rendering() {
    assert_eq!(u64_to_string(0), "0");
    assert_eq!(u64_to_string(8080), "8080");
    assert_eq!(u64_to_string(65535), "65535");
    assert_eq!(u64_to_string(u64::MAX), u64::MAX.to_string());
}

#[test]
fn padding_matches_format() {
    assert_eq!(pad_right_str("abc", 6), format!("{:<6}", "abc"));
    assert_eq!(pad_right_str("abcdefgh", 3), "abcdefgh");
    assert_eq!(pad_right_str("رمز", 5), format!("{:<5}", "رمز"));
}

#[test]
fn trimming_matches_std() {
    for s in ["  a b  ", "\t\nx\u{3000}", "", "   ", "\u{a0}y\u{2009}", "plain"] {
        assert_eq!(trim_str(s), s.trim());
    }
    assert_eq!(trim_start_matches("vvv1.2", "v"), "1.2");
    assert_eq!(trim_end_matches("./out///", "/"), "./out");
    assert_eq!(trim_start_matches("self-signed(x)", "self-signed("), "x)");
}

#[test]
fn lines_match_std() {
    for s in ["a\nb", "a\r\nb\r\n", "", "\n", "x\r", "one\n\ntwo\n"] {
        let ours = lines(s);
        let std: Vec<&str> = s.lines().collect();
        assert_eq!(ours, std);
    }
}

#[test]
fn splitting_matches_std() {
    for s in ["1.2.3.4", "", "a..b", ".x."] {
        let ours = split_char(s, '.');
        let std: Vec<&str> = s.split('.').collect();
        assert_eq!(ours, std);
    }
}

#[test]
fn searching() {
    assert_eq!(find("<a href=\"x\">", "href=\""), Some(3));
    assert_eq!(find("abc", "d"), None);
    assert_eq!(find("abc", ""), Some(0));
    assert!(contains("foo.deb", ".deb"));
    assert!(!contains("foo.rpm", ".deb"));
}

#[test]
fn parsing_unsigned_matches_std() {
    for s in ["0", "8080", "+42", "65535", "65536", "", "+", "-1", "12a", " 1"] {
        assert_eq!(parse_unsigned_str(s, 65535), s.parse::<u16>().ok().map(|v| v as u64), "{s:?}");
        assert_eq!(parse_unsigned_str(s, 255), s.parse::<u8>().ok().map(|v| v as u64), "{s:?}");
    }
}

#[test]
fn decimal_round_trips_through_parsing() {
    for n in [0u64, 7, 1024, 62000, 65535] {
        assert_eq!(parse_unsigned_str(&u64_to_string(n), 65535), Some(n));
    }
}
