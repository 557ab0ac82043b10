use boast::text::{parse_u64, split_lines, split_whitespace, str_eq, to_chars};

#[test]
fn chars_of_a_string() {
    assert_eq!(to_chars("aé€"), vec!['a', 'é', '€']);
    assert_eq!(to_chars(""), Vec::<char>::new());
}

#[test]
fn string_equality() {
    assert!(str_eq("--test", "--test"));
    assert!(!str_eq("--test", "--tests"));
    assert!(!str_eq("-q", "-p"));
    assert!(str_eq("", ""));
}

#[test]
fn unsigned_integers_are_read_as_the_standard_library_does() {
    for s in ["0", "42", "+7", "007", "18446744073709551615", "18446744073709551616", "", "+", "-1", " 1", "1 ", "1a", "99999999999999999999"] {
        assert_eq!(parse_u64(s), s.parse::<u64>().ok(), "for {s:?}");
    }
}

#[test]
fn words_are_split_as_split_whitespace_does() {
    for s in ["", "   ", "cmd", "cmd a  b", "  lead and trail  ", "tab\tsep\nnew", "nbsp\u{a0}x", "ideo\u{3000}y"] {
        let expected: Vec<String> = s.split_whitespace().map(|w| w.to_string()).collect();
        assert_eq!(split_whitespace(s), expected, "for {s:?}");
    }
}

#[test]
fn lines_are_split_as_lines_does() {
    for s in ["", "\n", "a", "a\n", "a\nb", "a\r\nb\r\n", "a\rb", "a\r", "\n\nx\n", "x\r\r\n"] {
        let expected: Vec<String> = s.lines().map(|w| w.to_string()).collect();
        assert_eq!(split_lines(s), expected, "for {s:?}");
    }
}

#[test]
fn hexadecimal_text() {
    for n in [0u64, 1, 15, 16, 255, 4096, 0xABCDEF, u64::MAX] {
        assert_eq!(boast::text::u64_to_hex(n), format!("{n:X}"));
    }
}
