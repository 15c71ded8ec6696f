use quedo_daemon::text::{
    chars_of, contains, is_whitespace, keyword, lines, parse_u32, parse_u64, split, take_chars,
    to_ascii_lowercase, trim,
};

#[test]
fn trim_and_lowercase_agree_with_std() {
    for s in ["", " ", "  a b \t\n", "\u{a0}x\u{3000}", "x", "\u{200b}x ", " TRUE ", "ÀB c"] {
        assert_eq!(trim(s), s.trim(), "{s:?}");
        assert_eq!(to_ascii_lowercase(s), s.to_ascii_lowercase(), "{s:?}");
        assert_eq!(keyword(s), s.trim().to_ascii_lowercase(), "{s:?}");
        assert_eq!(chars_of(s), s.chars().collect::<Vec<char>>());
    }
    for c in ['\u{9}', '\u{d}', ' ', '\u{85}', '\u{1680}', '\u{2000}', '\u{200a}', '\u{200b}', '\u{2028}', '\u{202f}', '\u{205f}', '\u{3000}', 'a', '\u{e}', '\u{8}'] {
        assert_eq!(is_whitespace(c), c.is_whitespace(), "{c:?}");
    }
}

#[test]
fn unsigned_parsing_agrees_with_std() {
    for s in ["0", "+7", "007", "18446744073709551615", "18446744073709551616", "4294967295", "4294967296", "", "+", "-1", " 1", "1 ", "1_0", "１２", "++1", "99999999999999999999999"] {
        assert_eq!(parse_u64(s), s.parse::<u64>().ok(), "{s:?}");
        assert_eq!(parse_u32(s), s.parse::<u32>().ok(), "{s:?}");
    }
}

#[test]
fn splitting_lines_and_searching_agree_with_std() {
    for s in ["", "a", "a.b", ".a..b.", "...", "1.7.2"] {
        assert_eq!(split(s, '.'), s.split('.').map(str::to_owned).collect::<Vec<_>>(), "{s:?}");
    }
    for s in ["", "a", "a\n", "a\r\n", "a\r", "\n", "\n\n", "a\nb", "a\r\nb\r", "\r\n", "a\n\r\nb\n"] {
        assert_eq!(lines(s), s.lines().map(str::to_owned).collect::<Vec<_>>(), "{s:?}");
    }
    for (h, n) in [("", ""), ("abc", ""), ("abc", "bc"), ("abc", "abcd"), ("no such table: runs", "no such table"), ("aab", "ab"), ("abc", "ac")] {
        assert_eq!(contains(h, n), h.contains(n), "{h:?} {n:?}");
    }
    assert_eq!(take_chars("héllo", 2), "hé");
    assert_eq!(take_chars("hi", 2), "hi");
    assert_eq!(take_chars("hi", 0), "");
}
