//! Character-level helpers: numbers, trimming, lines.

use vision_analyze::text::{decimal, join, lines_of, parse_i32, parse_u32, parse_u64, trim, trim_end};

#[test]
fn decimal_rendering() {
    assert_eq!(decimal(0), "0");
    assert_eq!(decimal(7), "7");
    assert_eq!(decimal(1024), "1024");
    assert_eq!(decimal(u64::MAX), "18446744073709551615");
}

#[test]
fn number_parsing_follows_from_str() {
    for s in ["0", "42", "+42", "007", "4294967295", "4294967296", "", "+", "-1", " 1", "1 ", "12a"] {
        assert_eq!(parse_u32(s), s.parse::<u32>().ok(), "u32 {s:?}");
    }
    for s in ["18446744073709551615", "18446744073709551616", "+0", "99999999999999999999999"] {
        assert_eq!(parse_u64(s), s.parse::<u64>().ok(), "u64 {s:?}");
    }
    for s in ["-0", "-2147483648", "-2147483649", "2147483647", "2147483648", "-", "+-1", "--1", "+7"] {
        assert_eq!(parse_i32(s), s.parse::<i32>().ok(), "i32 {s:?}");
    }
}

#[test]
fn trimming_follows_str_trim() {
    for s in ["", "  ", " a b ", "\t\nx\r\n", "\u{3000}y\u{a0}", "\u{200b}z"] {
        assert_eq!(trim(s), s.trim(), "trim {s:?}");
        assert_eq!(trim_end(s), s.trim_end(), "trim_end {s:?}");
    }
}

#[test]
fn lines_follow_str_lines() {
    for s in ["", "a", "a\n", "a\r\nb", "a\n\nb\n", "\n", "x\r", "x\r\r\n", "\r\n\r\n"] {
        let expected: Vec<String> = s.lines().map(|l| l.to_string()).collect();
        assert_eq!(lines_of(s), expected, "lines {s:?}");
        assert_eq!(join(&expected, "\n"), expected.join("\n"));
    }
}
